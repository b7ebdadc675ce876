//! A profile as text for the console.

use vstd::prelude::*;
use vstd::string::StringExecFns;
use crate::api_types::{HoAccountInformation, HoAddress, HoProfile, HoUserInformation};

verus! {

/// A profile, to be shown.
pub struct ProfileDisplay<'a>(pub &'a HoProfile);

/// A label, a value and the end of the line.
pub open spec fn labelled(label: Seq<char>, value: Seq<char>) -> Seq<char> {
    label + value + "\n"@
}

/// A labelled line, or nothing where the value is empty.
pub open spec fn optional_line(label: Seq<char>, value: Seq<char>) -> Seq<char> {
    if value.len() == 0 {
        Seq::empty()
    } else {
        labelled(label, value)
    }
}

/// A prefix and a value, or nothing where the value is empty.
pub open spec fn optional_part(prefix: Seq<char>, value: Seq<char>) -> Seq<char> {
    if value.len() == 0 {
        Seq::empty()
    } else {
        prefix + value
    }
}

/// `true` or `false`.
pub open spec fn bool_text(b: bool) -> Seq<char> {
    if b {
        "true"@
    } else {
        "false"@
    }
}

/// The two lines of an address: number, street and apartment, then city,
/// province and postal code.
pub open spec fn address_text(a: HoAddress) -> Seq<char> {
    "  "@ + a.street_number@ + " "@ + a.street_name@ + optional_part(", Apt "@, a.apartment@)
        + "\n"@ + "  "@ + a.city@ + ", "@ + a.province@ + " "@ + a.postal_code@ + "\n"@
}

/// The line of the business number with its extension, or nothing where there
/// is no business number.
pub open spec fn business_line(number: Seq<char>, extension: Seq<char>) -> Seq<char> {
    if number.len() == 0 {
        Seq::empty()
    } else {
        "  Business: "@ + number + optional_part(" x"@, extension) + "\n"@
    }
}

/// The telephone numbers that the account has.
pub open spec fn contact_text(a: HoAccountInformation) -> Seq<char> {
    "\nContact:\n"@ + optional_line("  Home: "@, a.home_phone_number@) + optional_line(
        "  Mobile: "@,
        a.mobile_phone_number@,
    ) + business_line(a.business_phone_number@, a.business_phone_number_extension@)
}

/// The account's part of the text.
pub open spec fn account_text(a: HoAccountInformation) -> Seq<char> {
    "\n=== Account Information ===\n"@ + labelled("Account ID: "@, a.account_id@) + labelled(
        "Premise ID: "@,
        a.premise_id@,
    ) + labelled("Pseudo Name: "@, a.pseudo_name@) + "\nService Address:\n"@ + address_text(
        a.service_address,
    ) + "\nMailing Address:\n"@ + address_text(a.mailing_address) + contact_text(a)
}

/// The user's part of the text.
pub open spec fn user_text(u: HoUserInformation) -> Seq<char> {
    "\n=== User Information ===\n"@ + labelled("Username: "@, u.username@) + labelled(
        "Language: "@,
        u.language_preference@,
    ) + labelled("MFA Enabled: "@, bool_text(u.mfa_enabled)) + labelled(
        "Social Sign-In: "@,
        bool_text(u.social_sign_in),
    )
}

/// The heading of a day's usage: the title, the day, the rate plan and the
/// billing period, a line each after an empty one.
pub open spec fn usage_heading(
    date: Seq<char>,
    rate_plan: Seq<char>,
    start: Seq<char>,
    end: Seq<char>,
) -> Seq<char> {
    "\n=== Hourly Usage Summary ===\n"@ + labelled("Date: "@, date) + labelled(
        "Rate Plan: "@,
        rate_plan,
    ) + "Billing Period: "@ + start + " to "@ + end + "\n"@
}

/// The whole text of a profile.
pub open spec fn profile_text(p: HoProfile) -> Seq<char> {
    account_text(p.account_information) + user_text(p.user_information)
}

/// Writes a labelled line.
pub fn labelled_line(label: &str, value: &str) -> (r: String)
    ensures
        r@ == labelled(label@, value@),
{
    let mut out = String::from_str(label);
    out.append(value);
    out.append("\n");
    out
}

/// Writes a labelled line, or nothing where the value is empty.
pub fn optional_labelled_line(label: &str, value: &str) -> (r: String)
    ensures
        r@ == optional_line(label@, value@),
{
    if value.is_empty() {
        String::new()
    } else {
        labelled_line(label, value)
    }
}

/// Writes a prefix and a value, or nothing where the value is empty.
pub fn optional_suffix(prefix: &str, value: &str) -> (r: String)
    ensures
        r@ == optional_part(prefix@, value@),
{
    if value.is_empty() {
        String::new()
    } else {
        let mut out = String::from_str(prefix);
        out.append(value);
        out
    }
}

/// Writes `true` or `false`.
pub fn bool_word(b: bool) -> (r: &'static str)
    ensures
        r@ == bool_text(b),
{
    if b {
        "true"
    } else {
        "false"
    }
}

/// Writes the two lines of an address.
pub fn render_address(a: &HoAddress) -> (r: String)
    ensures
        r@ == address_text(*a),
{
    let apartment = optional_suffix(", Apt ", a.apartment.as_str());
    let mut out = String::from_str("  ");
    out.append(a.street_number.as_str());
    out.append(" ");
    out.append(a.street_name.as_str());
    out.append(apartment.as_str());
    out.append("\n");
    out.append("  ");
    out.append(a.city.as_str());
    out.append(", ");
    out.append(a.province.as_str());
    out.append(" ");
    out.append(a.postal_code.as_str());
    out.append("\n");
    out
}

/// Writes the line of the business number.
pub fn render_business(number: &str, extension: &str) -> (r: String)
    ensures
        r@ == business_line(number@, extension@),
{
    if number.is_empty() {
        String::new()
    } else {
        let ext = optional_suffix(" x", extension);
        let mut out = String::from_str("  Business: ");
        out.append(number);
        out.append(ext.as_str());
        out.append("\n");
        out
    }
}

/// Writes the telephone numbers.
pub fn render_contact(a: &HoAccountInformation) -> (r: String)
    ensures
        r@ == contact_text(*a),
{
    let home = optional_labelled_line("  Home: ", a.home_phone_number.as_str());
    let mobile = optional_labelled_line("  Mobile: ", a.mobile_phone_number.as_str());
    let business = render_business(
        a.business_phone_number.as_str(),
        a.business_phone_number_extension.as_str(),
    );
    let mut out = String::from_str("\nContact:\n");
    out.append(home.as_str());
    out.append(mobile.as_str());
    out.append(business.as_str());
    out
}

/// Writes the account's part.
pub fn render_account(a: &HoAccountInformation) -> (r: String)
    ensures
        r@ == account_text(*a),
{
    let account_id = labelled_line("Account ID: ", a.account_id.as_str());
    let premise_id = labelled_line("Premise ID: ", a.premise_id.as_str());
    let pseudo_name = labelled_line("Pseudo Name: ", a.pseudo_name.as_str());
    let service = render_address(&a.service_address);
    let mailing = render_address(&a.mailing_address);
    let contact = render_contact(a);
    let mut out = String::from_str("\n=== Account Information ===\n");
    out.append(account_id.as_str());
    out.append(premise_id.as_str());
    out.append(pseudo_name.as_str());
    out.append("\nService Address:\n");
    out.append(service.as_str());
    out.append("\nMailing Address:\n");
    out.append(mailing.as_str());
    out.append(contact.as_str());
    out
}

/// Writes the user's part.
pub fn render_user(u: &HoUserInformation) -> (r: String)
    ensures
        r@ == user_text(*u),
{
    let username = labelled_line("Username: ", u.username.as_str());
    let language = labelled_line("Language: ", u.language_preference.as_str());
    let mfa = labelled_line("MFA Enabled: ", bool_word(u.mfa_enabled));
    let social = labelled_line("Social Sign-In: ", bool_word(u.social_sign_in));
    let mut out = String::from_str("\n=== User Information ===\n");
    out.append(username.as_str());
    out.append(language.as_str());
    out.append(mfa.as_str());
    out.append(social.as_str());
    out
}

/// Writes the heading of a day's usage.
pub fn render_usage_heading(date: &str, rate_plan: &str, start: &str, end: &str) -> (r: String)
    ensures
        r@ == usage_heading(date@, rate_plan@, start@, end@),
{
    let day = labelled_line("Date: ", date);
    let plan = labelled_line("Rate Plan: ", rate_plan);
    let mut out = String::from_str("\n=== Hourly Usage Summary ===\n");
    out.append(day.as_str());
    out.append(plan.as_str());
    out.append("Billing Period: ");
    out.append(start);
    out.append(" to ");
    out.append(end);
    out.append("\n");
    out
}

impl<'a> ProfileDisplay<'a> {
    /// The profile as text: the account with its addresses and telephone
    /// numbers, then the user.
    pub fn render(&self) -> (r: String)
        ensures
            r@ == profile_text(*self.0),
    {
        let user = render_user(&self.0.user_information);
        let mut out = render_account(&self.0.account_information);
        out.append(user.as_str());
        out
    }
}

} // verus!
