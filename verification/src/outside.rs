//! Outside types that the library carries through, and the calls it makes
//! on them.
use rustc_hash::FxBuildHasher;
use text_components::format::Format;
use text_components::TextComponent;
use uuid::Uuid;
use vstd::prelude::*;

verus! {

#[verifier::external_type_specification]
#[verifier::external_body]
pub struct ExFxBuildHasher(FxBuildHasher);

#[verifier::external_type_specification]
#[verifier::external_body]
pub struct ExUuid(Uuid);

#[verifier::external_type_specification]
#[verifier::external_body]
pub struct ExTextComponent(TextComponent);

#[verifier::external_type_specification]
#[verifier::external_body]
pub struct ExFormat(Format);

/// `Uuid::new_v4`: a random identifier; nothing is promised of its value.
pub assume_specification[ Uuid::new_v4 ]() -> Uuid;

/// `TextComponent::clone`, which `derive(Clone)` writes: the copy equals
/// the original.
pub assume_specification[ <TextComponent as Clone>::clone ](t: &TextComponent) -> (r: TextComponent)
    ensures
        r == *t,
;

} // verus!
