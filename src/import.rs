use vstd::prelude::*;

verus! {

/// How the asset record was entered.
#[derive(Debug)]
pub enum AssetInfoType {
    ManualBrokerage,
    ManualCash,
    ManualCryptocurrency,
    ManualRealEstate,
    ManualVehicle,
    Unknown(String),
}

/// Where the cost basis of a balance came from.
#[derive(Debug)]
pub enum BalanceCostFrom {
    UserManual,
    Unknown(String),
}

/// Where a balance came from.
#[derive(Debug)]
pub enum BalanceFrom {
    UserManual,
    Vendor,
    Unknown(String),
}

/// Where the price of a balance came from.
#[derive(Debug)]
pub enum BalancePriceFrom {
    UserManual,
    Unknown(String),
}

/// The major class of a holding.
#[derive(Debug)]
pub enum MajorClass {
    AlternativeInvestments,
    CashDepositsMoneyMarketFunds,
    FixedIncome,
    Liabilities,
    PublicEquity,
    OtherInvestments,
    Unknown(String),
}

/// The minor class of a holding.
#[derive(Debug)]
pub enum MinorAssetClass {
    AssetAllocation,
    Cash,
    Commodities,
    CreditCard,
    DepositsMoneyMarketFunds,
    GlobalEquity,
    HedgeFunds,
    HybridFixedIncome,
    IncomeOrientedEquity,
    IntraFamilyLoan,
    InvestmentGradeFixedIncome,
    Loan,
    Miscellaneous,
    NonUsEquity,
    Other,
    OtherEquity,
    OtherFixedIncome,
    OtherLiability,
    PersonalRealEstate,
    PrivateEquity,
    RealEstate,
    ResidentialMortgages,
    SecurityBasedLoans,
    StructuredLoans,
    UsEquity,
    VentureCapital,
    Unknown(String),
}

/// The primary category of an imported asset.
#[derive(Debug)]
pub enum PrimaryAssetCategory {
    Cash,
    Investment,
    RealEstate,
    OtherProperty,
    Unknown(String),
}

/// The update status reported for an asset.
#[derive(Debug)]
pub enum StatusCode {
    AutoUpdateAvailable,
    Unknown(String),
}

/// The kind of response that the vendor gave.
#[derive(Debug)]
pub enum VendorResponseType {
    Other,
    Unknown(String),
}

/// The type of an imported asset.
#[derive(Debug)]
pub enum WealthAssetType {
    Brokerage,
    Cash,
    Cryptocurrency,
    RealEstate,
    Vehicle,
    Unknown(String),
}

} // verus!
