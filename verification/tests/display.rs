use hydroottawa_api::api_types::{HoAccountInformation, HoAddress, HoProfile, HoUserInformation};
use hydroottawa_api::display::{
    bool_word, labelled_line, optional_labelled_line, optional_suffix, render_address,
    render_business, render_usage_heading, ProfileDisplay,
};

fn address(apartment: &str) -> HoAddress {
    HoAddress {
        apartment: apartment.to_string(),
        city: "Ottawa".to_string(),
        postal_code: "K1A 0B1".to_string(),
        province: "ON".to_string(),
        street_name: "Wellington St".to_string(),
        street_number: "111".to_string(),
    }
}

fn profile() -> HoProfile {
    HoProfile {
        account_information: HoAccountInformation {
            account_id: "1234567".to_string(),
            business_phone_number: "613-555-0100".to_string(),
            business_phone_number_extension: "42".to_string(),
            home_phone_number: "613-555-0101".to_string(),
            mailing_address: address("7"),
            mobile_phone_number: String::new(),
            premise_id: "7654321".to_string(),
            pseudo_name: "Home".to_string(),
            service_address: address(""),
        },
        user_information: HoUserInformation {
            language_preference: "en".to_string(),
            mfa_enabled: false,
            mfa_phone_number: String::new(),
            social_sign_in: true,
            username: "alice@example.com".to_string(),
        },
    }
}

#[test]
fn profile_text_in_full() {
    let p = profile();
    let expected = "\n=== Account Information ===\n\
Account ID: 1234567\n\
Premise ID: 7654321\n\
Pseudo Name: Home\n\
\nService Address:\n\
\x20 111 Wellington St\n\
\x20 Ottawa, ON K1A 0B1\n\
\nMailing Address:\n\
\x20 111 Wellington St, Apt 7\n\
\x20 Ottawa, ON K1A 0B1\n\
\nContact:\n\
\x20 Home: 613-555-0101\n\
\x20 Business: 613-555-0100 x42\n\
\n=== User Information ===\n\
Username: alice@example.com\n\
Language: en\n\
MFA Enabled: false\n\
Social Sign-In: true\n";
    assert_eq!(ProfileDisplay(&p).render(), expected);
}

#[test]
fn profile_without_telephone_numbers() {
    let mut p = profile();
    p.account_information.home_phone_number = String::new();
    p.account_information.business_phone_number = String::new();
    let text = ProfileDisplay(&p).render();
    assert!(text.contains("\nContact:\n\n=== User Information ===\n"));
    assert!(!text.contains("x42"));
}

#[test]
fn address_lines() {
    assert_eq!(render_address(&address("")), "  111 Wellington St\n  Ottawa, ON K1A 0B1\n");
    assert_eq!(
        render_address(&address("12B")),
        "  111 Wellington St, Apt 12B\n  Ottawa, ON K1A 0B1\n"
    );
}

#[test]
fn business_line_with_and_without_extension() {
    assert_eq!(render_business("555", "9"), "  Business: 555 x9\n");
    assert_eq!(render_business("555", ""), "  Business: 555\n");
    assert_eq!(render_business("", "9"), "");
}

#[test]
fn small_pieces() {
    assert_eq!(labelled_line("A: ", "b"), "A: b\n");
    assert_eq!(labelled_line("A: ", ""), "A: \n");
    assert_eq!(optional_labelled_line("A: ", "b"), "A: b\n");
    assert_eq!(optional_labelled_line("A: ", ""), "");
    assert_eq!(optional_suffix(", Apt ", "3"), ", Apt 3");
    assert_eq!(optional_suffix(", Apt ", ""), "");
    assert_eq!(bool_word(true), "true");
    assert_eq!(bool_word(false), "false");
}

#[test]
fn usage_heading_lines() {
    assert_eq!(
        render_usage_heading("2025-03-09", "TOU", "2025-03-01", "2025-03-31"),
        "\n=== Hourly Usage Summary ===\nDate: 2025-03-09\nRate Plan: TOU\n\
Billing Period: 2025-03-01 to 2025-03-31\n"
    );
    assert_eq!(
        render_usage_heading("", "", "", ""),
        "\n=== Hourly Usage Summary ===\nDate: \nRate Plan: \nBilling Period:  to \n"
    );
}
