//! The antivirus collector: enumerates the registered antivirus products and
//! decodes their status codes.

use vstd::prelude::*;
use crate::protocol::Platform;
use crate::security_center::{Family, ProductScan, ScanView};
use crate::status::{
    activity_bits,
    activity_field,
    decode,
    definition_bits,
    definition_field,
    owner_bits,
    owner_field,
    status_of,
    ProductStatus,
};

verus! {

/// Namespace in which security products register.
pub const SECURITY_CENTER_NAMESPACE: &'static str = "ROOT\\SecurityCenter2";

/// Language of the projection queries.
pub const QUERY_LANGUAGE: &'static str = "WQL";

/// Projection of name and status code over the antivirus products.
pub const ANTIVIRUS_QUERY: &'static str = "Select displayName, productState FROM AntiVirusProduct";

/// Projection of name and status code over the firewall products.
pub const FIREWALL_QUERY: &'static str = "Select displayName, productState FROM FirewallProduct";

/// One registered product: its name, its status code as reported, and the
/// three fields of the code.
#[derive(Debug)]
pub struct ProductInfo {
    pub name: String,
    pub state: i32,
    pub product_status: i32,
    pub definition_status: i32,
    pub product_owner: i32,
}

/// Mathematical model of a [`ProductInfo`].
pub struct ProductView {
    pub name: Seq<char>,
    pub state: i32,
    pub product_status: i32,
    pub definition_status: i32,
    pub product_owner: i32,
}

impl View for ProductInfo {
    type V = ProductView;

    open spec fn view(&self) -> ProductView {
        ProductView {
            name: self.name@,
            state: self.state,
            product_status: self.product_status,
            definition_status: self.definition_status,
            product_owner: self.product_owner,
        }
    }
}

/// The record of a product with this name and status code. The three fields
/// are functions of the code and of nothing else.
pub open spec fn product_of(name: Seq<char>, state: i32) -> ProductView {
    ProductView {
        name,
        state,
        product_status: activity_bits(state),
        definition_status: definition_bits(state),
        product_owner: owner_bits(state),
    }
}

/// The models of a list of products, in order.
pub open spec fn product_views(products: Seq<ProductInfo>) -> Seq<ProductView> {
    products.map_values(|p: ProductInfo| p@)
}

impl ProductInfo {
    /// Builds the record of a product from its name and status code.
    pub fn new(name: String, state: i32) -> (product: ProductInfo)
        ensures
            product@ == product_of(name@, state),
    {
        ProductInfo {
            name,
            state,
            product_status: activity_field(state),
            definition_status: definition_field(state),
            product_owner: owner_field(state),
        }
    }

    /// What the status code says about the product.
    pub fn status(&self) -> (status: ProductStatus)
        ensures
            status == status_of(self.state),
    {
        decode(self.state)
    }
}

/// Begins a scan of the registered antivirus products. The scan asks for the
/// session first; on a host other than Windows it is over at once with
/// [`crate::protocol::ScanError::NotWindows`] and asks for nothing.
pub fn scan_antivirus(platform: Platform) -> (scan: ProductScan)
    ensures
        scan@ == ScanView::begin(Family::Antivirus, platform),
{
    ProductScan::begin(Family::Antivirus, platform)
}

/// The number of products in the list whose activity field equals `status`.
pub open spec fn status_count(products: Seq<ProductView>, status: i32) -> nat
    decreases products.len(),
{
    if products.len() == 0 {
        0
    } else {
        status_count(products.drop_last(), status) + if products.last().product_status
            == status {
            1nat
        } else {
            0nat
        }
    }
}

/// Counts the products whose activity field equals `status`.
pub fn count_with_status(products: &Vec<ProductInfo>, status: i32) -> (count: usize)
    ensures
        count == status_count(product_views(products@), status),
{
    let mut count: usize = 0;
    let mut i: usize = 0;
    while i < products.len()
        invariant
            i <= products.len(),
            count <= i,
            count == status_count(product_views(products@).take(i as int), status),
        decreases products.len() - i,
    {
        proof {
            let views = product_views(products@);
            assert(views.take(i + 1).drop_last() =~= views.take(i as int));
            assert(views.take(i + 1).last() == products@[i as int]@);
        }
        if products[i].product_status == status {
            count = count + 1;
        }
        i = i + 1;
    }
    proof {
        let views = product_views(products@);
        assert(views.take(products.len() as int) =~= views);
    }
    count
}

/// What a list of antivirus products amounts to.
#[derive(Clone, Copy, Debug, PartialEq, Eq, Structural)]
pub enum AntivirusVerdict {
    /// No product is switched on.
    Unprotected,
    /// Exactly one product is switched on.
    Protected,
    /// More than one product is switched on; they may get in each other's way.
    Conflicting,
}

/// The verdict on a list with this many products switched on.
pub open spec fn verdict_of(active: nat) -> AntivirusVerdict {
    if active == 0 {
        AntivirusVerdict::Unprotected
    } else if active == 1 {
        AntivirusVerdict::Protected
    } else {
        AntivirusVerdict::Conflicting
    }
}

/// Judges the antivirus protection of the host by the number of products
/// that report themselves switched on.
pub fn assess_antivirus(products: &Vec<ProductInfo>) -> (verdict: AntivirusVerdict)
    ensures
        verdict == verdict_of(status_count(product_views(products@), 1)),
{
    let active = count_with_status(products, 1);
    if active == 0 {
        AntivirusVerdict::Unprotected
    } else if active == 1 {
        AntivirusVerdict::Protected
    } else {
        AntivirusVerdict::Conflicting
    }
}

} // verus!
