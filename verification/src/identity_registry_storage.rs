//! The country data that an identity registry keeps for each account.

use vstd::prelude::*;

verus! {

/// How an individual investor relates to a country.
pub enum IndividualCountryRelation {
    /// Country of residence.
    Residence(u32),
    /// Country of citizenship.
    Citizenship(u32),
    /// Country from which the investor's funds originate.
    SourceOfFunds(u32),
    /// Country of tax residency.
    TaxResidency(u32),
    /// A relation of another kind, with its label.
    Custom(String, u32),
}

/// How an organization relates to a country.
pub enum OrganizationCountryRelation {
    /// Country of incorporation.
    Incorporation(u32),
    /// Country in which the organization operates.
    OperatingJurisdiction(u32),
    /// Country of tax jurisdiction.
    TaxJurisdiction(u32),
    /// Country from which the organization's funds originate.
    SourceOfFunds(u32),
    /// A relation of another kind, with its label.
    Custom(String, u32),
}

/// A relation between an account's identity and an ISO 3166-1 numeric
/// country code.
pub enum CountryRelation {
    /// The identity is an individual.
    Individual(IndividualCountryRelation),
    /// The identity is an organization.
    Organization(OrganizationCountryRelation),
}

/// One country entry of an account in the identity registry.
pub struct CountryData {
    /// The relation and its country code.
    pub country: CountryRelation,
}

} // verus!
