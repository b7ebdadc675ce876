//! What the vendor's service tells of an account.

use vstd::prelude::*;

verus! {

/// A customer's profile.
#[derive(Debug)]
pub struct HoProfile {
    pub account_information: HoAccountInformation,
    pub user_information: HoUserInformation,
}

/// The account: its identifiers, its addresses and its telephone numbers.
#[derive(Debug)]
pub struct HoAccountInformation {
    pub account_id: String,
    pub business_phone_number: String,
    pub business_phone_number_extension: String,
    pub home_phone_number: String,
    pub mailing_address: HoAddress,
    pub mobile_phone_number: String,
    pub premise_id: String,
    pub pseudo_name: String,
    pub service_address: HoAddress,
}

/// A postal address.
#[derive(Debug)]
pub struct HoAddress {
    pub apartment: String,
    pub city: String,
    pub postal_code: String,
    pub province: String,
    pub street_name: String,
    pub street_number: String,
}

/// The user of the account.
#[derive(Debug)]
pub struct HoUserInformation {
    pub language_preference: String,
    pub mfa_enabled: bool,
    pub mfa_phone_number: String,
    pub social_sign_in: bool,
    pub username: String,
}

} // verus!
