use vstd::prelude::*;

use crate::import;

verus! {

/// The primary category of a stored asset.
#[derive(Debug)]
pub enum PrimaryAssetCategory {
    Cash,
    Investment,
    RealEstate,
    OtherProperty,
    Unknown(String),
}

/// The type of a stored asset.
#[derive(Debug)]
pub enum WealthAssetType {
    Brokerage,
    Cash,
    Cryptocurrency,
    RealEstate,
    Vehicle,
    Unknown(String),
}

/// The stored category for an imported one: the same variant, and the same
/// text for an unknown category.
pub open spec fn stored_category(c: import::PrimaryAssetCategory) -> PrimaryAssetCategory {
    match c {
        import::PrimaryAssetCategory::Cash => PrimaryAssetCategory::Cash,
        import::PrimaryAssetCategory::Investment => PrimaryAssetCategory::Investment,
        import::PrimaryAssetCategory::RealEstate => PrimaryAssetCategory::RealEstate,
        import::PrimaryAssetCategory::OtherProperty => PrimaryAssetCategory::OtherProperty,
        import::PrimaryAssetCategory::Unknown(s) => PrimaryAssetCategory::Unknown(s),
    }
}

/// The stored type for an imported one: the same variant, and the same text
/// for an unknown type.
pub open spec fn stored_type(t: import::WealthAssetType) -> WealthAssetType {
    match t {
        import::WealthAssetType::Brokerage => WealthAssetType::Brokerage,
        import::WealthAssetType::Cash => WealthAssetType::Cash,
        import::WealthAssetType::Cryptocurrency => WealthAssetType::Cryptocurrency,
        import::WealthAssetType::RealEstate => WealthAssetType::RealEstate,
        import::WealthAssetType::Vehicle => WealthAssetType::Vehicle,
        import::WealthAssetType::Unknown(s) => WealthAssetType::Unknown(s),
    }
}

impl From<import::PrimaryAssetCategory> for PrimaryAssetCategory {
    fn from(category: import::PrimaryAssetCategory) -> (r: Self)
        ensures
            r == stored_category(category),
    {
        match category {
            import::PrimaryAssetCategory::Cash => PrimaryAssetCategory::Cash,
            import::PrimaryAssetCategory::Investment => PrimaryAssetCategory::Investment,
            import::PrimaryAssetCategory::RealEstate => PrimaryAssetCategory::RealEstate,
            import::PrimaryAssetCategory::OtherProperty => PrimaryAssetCategory::OtherProperty,
            import::PrimaryAssetCategory::Unknown(s) => PrimaryAssetCategory::Unknown(s),
        }
    }
}

impl vstd::std_specs::convert::FromSpecImpl<import::PrimaryAssetCategory> for PrimaryAssetCategory {
    open spec fn obeys_from_spec() -> bool {
        true
    }

    open spec fn from_spec(v: import::PrimaryAssetCategory) -> PrimaryAssetCategory {
        stored_category(v)
    }
}

impl From<import::WealthAssetType> for WealthAssetType {
    fn from(asset_type: import::WealthAssetType) -> (r: Self)
        ensures
            r == stored_type(asset_type),
    {
        match asset_type {
            import::WealthAssetType::Brokerage => WealthAssetType::Brokerage,
            import::WealthAssetType::Cash => WealthAssetType::Cash,
            import::WealthAssetType::Cryptocurrency => WealthAssetType::Cryptocurrency,
            import::WealthAssetType::RealEstate => WealthAssetType::RealEstate,
            import::WealthAssetType::Vehicle => WealthAssetType::Vehicle,
            import::WealthAssetType::Unknown(s) => WealthAssetType::Unknown(s),
        }
    }
}

impl vstd::std_specs::convert::FromSpecImpl<import::WealthAssetType> for WealthAssetType {
    open spec fn obeys_from_spec() -> bool {
        true
    }

    open spec fn from_spec(v: import::WealthAssetType) -> WealthAssetType {
        stored_type(v)
    }
}

} // verus!
