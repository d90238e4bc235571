use crate::circuit::Error;
use crate::compiler::values;
use crate::scalar::Scalar;
use dusk_plonk::prelude::{BlsScalar, Error as PlonkError, Proof, Verifier};
use vstd::prelude::*;

verus! {

#[verifier::external_type_specification]
#[verifier::external_body]
pub struct ExVerifier(Verifier);

#[verifier::external_type_specification]
#[verifier::external_body]
pub struct ExProof(Proof);

#[verifier::external_type_specification]
#[verifier::external_body]
pub struct ExPlonkError(PlonkError);

/// Whether dusk-plonk's `Verifier::verify` accepts the proof for these
/// public input values.
pub uninterp spec fn plonk_accepts(v: Verifier, p: Proof, pi: Seq<int>) -> bool;

/// Relies on dusk-plonk's `Verifier::verify`: checks the proof's opening
/// and gate identities against the verifier key and the public inputs, and
/// returns an error where any check fails.  Its challenges come from the
/// key, the proof and the inputs alone, so the verdict depends on them only.
#[verifier::external_body]
fn plonk_verify(
    verifier: &Verifier,
    proof: &Proof,
    public_inputs: &Vec<Scalar>,
) -> (r: Result<(), PlonkError>)
    requires
        forall|i: int| 0 <= i < public_inputs@.len() ==> (#[trigger] public_inputs@[i]).wf(),
    ensures
        r is Ok <==> plonk_accepts(*verifier, *proof, values(public_inputs@)),
{
    let pi: Vec<BlsScalar> =
        public_inputs.iter().map(|s| BlsScalar::from_bytes(&s.bytes).unwrap()).collect();
    verifier.verify(proof, &pi)
}

/// The verdict for what the proof check returned: success, or
/// `VerificationFailed` whatever the check's own error was.
pub fn verdict(outcome: Result<(), PlonkError>) -> (r: Result<(), Error>)
    ensures
        r is Ok <==> outcome is Ok,
        r is Err ==> r == Err::<(), Error>(Error::VerificationFailed),
{
    match outcome {
        Ok(()) => Ok(()),
        Err(_) => Err(Error::VerificationFailed),
    }
}

/// Checks a proof against a verifier key and the claimed public inputs:
/// `Ok` exactly when the proof system accepts them, and `VerificationFailed`
/// for every failure.
pub fn verify(verifier: &Verifier, proof: &Proof, public_inputs: &Vec<Scalar>) -> (r: Result<
    (),
    Error,
>)
    requires
        forall|i: int| 0 <= i < public_inputs@.len() ==> (#[trigger] public_inputs@[i]).wf(),
    ensures
        r is Ok <==> plonk_accepts(*verifier, *proof, values(public_inputs@)),
        r is Err ==> r == Err::<(), Error>(Error::VerificationFailed),
{
    verdict(plonk_verify(verifier, proof, public_inputs))
}

} // verus!
