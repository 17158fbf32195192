use vstd::prelude::*;

verus! {

/// One of the two canonical wire forms of a value.
#[derive(Clone, Copy, Debug, PartialEq, Eq, Structural)]
pub enum Variant {
    /// The smaller form, which omits what can be recovered.
    Compressed,
    /// The larger form, with nothing omitted.
    Uncompressed,
}

/// The fixed message reported when encoding in `variant` fails.
pub open spec fn failure_text(variant: Variant) -> Seq<char> {
    match variant {
        Variant::Compressed => "serialize_compressed failed"@,
        Variant::Uncompressed => "serialize_uncompressed failed"@,
    }
}

impl Variant {
    /// The message reported when encoding in this form fails.
    pub fn failure_message(self) -> (r: &'static str)
        ensures
            r@ == failure_text(self),
    {
        match self {
            Variant::Compressed => "serialize_compressed failed",
            Variant::Uncompressed => "serialize_uncompressed failed",
        }
    }
}

} // verus!
