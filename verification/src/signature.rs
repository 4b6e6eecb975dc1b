//! The signature manifest of a saved model, and the resolution of a
//! signature key and two tensor aliases to concrete tensor bindings.

use vstd::prelude::*;

use crate::errors::LoadError;

verus! {

/// One tensor alias of a signature: the alias under which callers name the
/// tensor, the graph operation that produces it, and the slot index of the
/// tensor among that operation's outputs.
#[derive(Debug)]
pub struct TensorBinding {
    /// The alias under which the signature lists the tensor.
    pub alias: String,
    /// The name of the graph operation that produces the tensor.
    pub op_name: String,
    /// The position of the tensor among the operation's outputs.
    pub slot_index: u32,
}

/// One named signature of the manifest: its key and the tensor aliases it
/// maps, split into inputs and outputs.
#[derive(Debug)]
pub struct SignatureDef {
    /// The key under which the manifest lists the signature.
    pub key: String,
    /// The input tensor aliases of the signature.
    pub inputs: Vec<TensorBinding>,
    /// The output tensor aliases of the signature.
    pub outputs: Vec<TensorBinding>,
}

/// The signature manifest of a saved model: the named signatures it offers.
#[derive(Debug)]
pub struct SignatureManifest {
    /// The signatures of the manifest.
    pub signatures: Vec<SignatureDef>,
}

/// The resolved tensor bindings of a loaded model: the graph operation and
/// slot index of its one input and its one output tensor.
#[derive(Debug)]
pub struct Model {
    /// The name of the operation feeding the input tensor.
    pub input_op: String,
    /// The slot index of the input tensor.
    pub input_index: u32,
    /// The name of the operation producing the output tensor.
    pub output_op: String,
    /// The slot index of the output tensor.
    pub output_index: u32,
}

/// The first binding of `s` whose alias reads `key`, if any.
pub open spec fn find_binding(s: Seq<TensorBinding>, key: Seq<char>) -> Option<TensorBinding>
    decreases s.len(),
{
    if s.len() == 0 {
        None
    } else if s[0].alias@ == key {
        Some(s[0])
    } else {
        find_binding(s.subrange(1, s.len() as int), key)
    }
}

/// The first signature of `s` whose key reads `key`, if any.
pub open spec fn find_signature(s: Seq<SignatureDef>, key: Seq<char>) -> Option<SignatureDef>
    decreases s.len(),
{
    if s.len() == 0 {
        None
    } else if s[0].key@ == key {
        Some(s[0])
    } else {
        find_signature(s.subrange(1, s.len() as int), key)
    }
}

proof fn lemma_find_binding_at(s: Seq<TensorBinding>, key: Seq<char>, i: int)
    requires
        0 <= i < s.len(),
        s[i].alias@ == key,
        forall|j: int| 0 <= j < i ==> s[j].alias@ != key,
    ensures
        find_binding(s, key) == Some(s[i]),
    decreases i,
{
    if i > 0 {
        lemma_find_binding_at(s.subrange(1, s.len() as int), key, i - 1);
    }
}

proof fn lemma_find_binding_none(s: Seq<TensorBinding>, key: Seq<char>)
    requires
        forall|j: int| 0 <= j < s.len() ==> s[j].alias@ != key,
    ensures
        find_binding(s, key) is None,
    decreases s.len(),
{
    if s.len() > 0 {
        lemma_find_binding_none(s.subrange(1, s.len() as int), key);
    }
}

proof fn lemma_find_signature_at(s: Seq<SignatureDef>, key: Seq<char>, i: int)
    requires
        0 <= i < s.len(),
        s[i].key@ == key,
        forall|j: int| 0 <= j < i ==> s[j].key@ != key,
    ensures
        find_signature(s, key) == Some(s[i]),
    decreases i,
{
    if i > 0 {
        lemma_find_signature_at(s.subrange(1, s.len() as int), key, i - 1);
    }
}

proof fn lemma_find_signature_none(s: Seq<SignatureDef>, key: Seq<char>)
    requires
        forall|j: int| 0 <= j < s.len() ==> s[j].key@ != key,
    ensures
        find_signature(s, key) is None,
    decreases s.len(),
{
    if s.len() > 0 {
        lemma_find_signature_none(s.subrange(1, s.len() as int), key);
    }
}

/// The index of the first binding of `bindings` whose alias reads `key`.
fn lookup_binding(bindings: &Vec<TensorBinding>, key: &String) -> (r: Option<usize>)
    ensures
        match r {
            Some(i) => i < bindings@.len() && find_binding(bindings@, key@) == Some(
                bindings@[i as int],
            ),
            None => find_binding(bindings@, key@) is None,
        },
{
    let n = bindings.len();
    let mut i: usize = 0;
    while i < n
        invariant
            n == bindings@.len(),
            i <= n,
            forall|j: int| 0 <= j < i ==> bindings@[j].alias@ != key@,
        decreases n - i,
    {
        if bindings[i].alias == *key {
            proof {
                lemma_find_binding_at(bindings@, key@, i as int);
            }
            return Some(i);
        }
        i = i + 1;
    }
    proof {
        lemma_find_binding_none(bindings@, key@);
    }
    None
}

/// The index of the first signature of `signatures` whose key reads `key`.
fn lookup_signature(signatures: &Vec<SignatureDef>, key: &String) -> (r: Option<usize>)
    ensures
        match r {
            Some(i) => i < signatures@.len() && find_signature(signatures@, key@) == Some(
                signatures@[i as int],
            ),
            None => find_signature(signatures@, key@) is None,
        },
{
    let n = signatures.len();
    let mut i: usize = 0;
    while i < n
        invariant
            n == signatures@.len(),
            i <= n,
            forall|j: int| 0 <= j < i ==> signatures@[j].key@ != key@,
        decreases n - i,
    {
        if signatures[i].key == *key {
            proof {
                lemma_find_signature_at(signatures@, key@, i as int);
            }
            return Some(i);
        }
        i = i + 1;
    }
    proof {
        lemma_find_signature_none(signatures@, key@);
    }
    None
}

impl Model {
    /// Resolves `signature_key` in `manifest`, then `input_key` and
    /// `output_key` within the chosen signature, to the model's tensor
    /// bindings.
    ///
    /// Succeeds exactly when the manifest holds the signature and the
    /// signature holds both aliases; a missing signature is reported before
    /// a missing input alias, and a missing input alias before a missing
    /// output alias, each under the key that failed to resolve.
    pub fn resolve(
        manifest: &SignatureManifest,
        signature_key: &String,
        input_key: &String,
        output_key: &String,
    ) -> (r: Result<Model, LoadError>)
        ensures
            r is Ok <==> (find_signature(manifest.signatures@, signature_key@) matches Some(sig)
                && find_binding(sig.inputs@, input_key@) is Some && find_binding(
                sig.outputs@,
                output_key@,
            ) is Some),
            r matches Ok(m) ==> (find_signature(manifest.signatures@, signature_key@) matches Some(
                sig,
            ) && find_binding(sig.inputs@, input_key@) matches Some(input) && find_binding(
                sig.outputs@,
                output_key@,
            ) matches Some(output) && m.input_op@ == input.op_name@ && m.input_index
                == input.slot_index && m.output_op@ == output.op_name@ && m.output_index
                == output.slot_index),
            r matches Err(e) ==> match e {
                LoadError::SignatureNotFound { key } => key@ == signature_key@ && find_signature(
                    manifest.signatures@,
                    signature_key@,
                ) is None,
                LoadError::TensorAliasNotFound { key } => (find_signature(
                    manifest.signatures@,
                    signature_key@,
                ) matches Some(sig) && ((key@ == input_key@ && find_binding(
                    sig.inputs@,
                    input_key@,
                ) is None) || (key@ == output_key@ && find_binding(sig.inputs@, input_key@) is Some
                    && find_binding(sig.outputs@, output_key@) is None))),
                _ => false,
            },
    {
        let sig_idx = match lookup_signature(&manifest.signatures, signature_key) {
            Some(i) => i,
            None => {
                return Err(LoadError::SignatureNotFound { key: signature_key.clone() });
            },
        };
        let sig = &manifest.signatures[sig_idx];
        let input_idx = match lookup_binding(&sig.inputs, input_key) {
            Some(i) => i,
            None => {
                return Err(LoadError::TensorAliasNotFound { key: input_key.clone() });
            },
        };
        let output_idx = match lookup_binding(&sig.outputs, output_key) {
            Some(i) => i,
            None => {
                return Err(LoadError::TensorAliasNotFound { key: output_key.clone() });
            },
        };
        let input = &sig.inputs[input_idx];
        let output = &sig.outputs[output_idx];
        Ok(
            Model {
                input_op: input.op_name.clone(),
                input_index: input.slot_index,
                output_op: output.op_name.clone(),
                output_index: output.slot_index,
            },
        )
    }
}

} // verus!
