//! Target signatures: the hardware and firmware combinations that accept the
//! Fn-lock command.

use vstd::prelude::*;

verus! {

pub const K380_VID: u16 = 0x046d;

pub const K380_PID: u16 = 0xb342;

pub const TARGET_USAGE: u16 = 0x0001;

pub const TARGET_USAGE_PAGE: u16 = 0xff00;

/// The four fields that identify one HID interface of one product.
#[derive(Clone, Copy, Debug, PartialEq, Eq, Structural)]
pub struct TargetSignature {
    pub vendor_id: u16,
    pub product_id: u16,
    pub usage: u16,
    pub usage_page: u16,
}

/// The signature of the K380's vendor-defined interface.
pub open spec fn k380_signature() -> TargetSignature {
    TargetSignature {
        vendor_id: K380_VID,
        product_id: K380_PID,
        usage: TARGET_USAGE,
        usage_page: TARGET_USAGE_PAGE,
    }
}

/// The table of supported signatures.
pub open spec fn known_signatures_spec() -> Seq<TargetSignature> {
    seq![k380_signature()]
}

/// The number of fields in which `a` and `b` differ.
pub open spec fn fields_changed(a: TargetSignature, b: TargetSignature) -> nat {
    let vendor: nat = if a.vendor_id != b.vendor_id { 1 } else { 0 };
    let product: nat = if a.product_id != b.product_id { 1 } else { 0 };
    let usage: nat = if a.usage != b.usage { 1 } else { 0 };
    let usage_page: nat = if a.usage_page != b.usage_page { 1 } else { 0 };
    vendor + product + usage + usage_page
}

/// No two signatures of `signatures` are one field apart.
pub open spec fn well_separated(signatures: Seq<TargetSignature>) -> bool {
    forall|i: int, j: int|
        0 <= i < signatures.len() && 0 <= j < signatures.len() ==> fields_changed(
            #[trigger] signatures[i],
            #[trigger] signatures[j],
        ) != 1
}

/// The table of supported signatures. A further product is a further row.
pub fn known_signatures() -> (table: Vec<TargetSignature>)
    ensures
        table@ == known_signatures_spec(),
{
    let mut table: Vec<TargetSignature> = Vec::new();
    table.push(
        TargetSignature {
            vendor_id: K380_VID,
            product_id: K380_PID,
            usage: TARGET_USAGE,
            usage_page: TARGET_USAGE_PAGE,
        },
    );
    assert(table@ =~= known_signatures_spec());
    table
}

/// The table of supported signatures is well separated.
pub proof fn lemma_known_signatures_well_separated()
    ensures
        well_separated(known_signatures_spec()),
{
}

} // verus!
