use schwifty::chars::strip_whitespace;
use schwifty::mod97::mod97_remainder;
use schwifty::{validate, Country, ValidationError};

#[test]
fn registry_lengths_match_layouts() {
    let countries = [
        Country::Albania,
        Country::Belgium,
        Country::Brazil,
        Country::CzechRepublic,
        Country::Germany,
        Country::Iceland,
        Country::Internet,
        Country::Italy,
        Country::Malta,
        Country::Norway,
        Country::SaintLucia,
        Country::Seychelles,
        Country::UnitedKingdom,
    ];
    for co in countries {
        let lay = co.layout();
        let total: usize = lay.iter().map(|&(_, k)| k).sum();
        assert_eq!(total, co.length());
    }
}

#[test]
fn stripping_is_idempotent() {
    let once = strip_whitespace(" GB82\tWEST 1234\n5698 7654 32 ");
    let twice = strip_whitespace(&once);
    assert_eq!(once, twice);
    assert_eq!(once, "GB82WEST12345698765432");
}

#[test]
fn any_whitespace_is_stripped() {
    let ib = validate("DE89\u{a0}3704 0044\t0532\u{2009}0130\n00").unwrap();
    assert_eq!(ib.raw(), "DE89370400440532013000");
    let ib2 = validate("  DE89 3704 0044 0532 0130 00  ").unwrap();
    assert_eq!(ib.raw(), ib2.raw());
}

#[test]
fn positive_corpus_gb() {
    let ib = validate("GB82 WEST 1234 5698 7654 32").unwrap();
    assert_eq!(ib.country_code(), "GB");
    assert_eq!(ib.country, Country::UnitedKingdom);
    assert_eq!(ib.bank_code(), "WEST");
    assert_eq!(ib.raw(), "GB82WEST12345698765432");
    assert_eq!(mod97_remainder(ib.raw()), 1);
}

#[test]
fn positive_corpus_de() {
    let ib = validate("DE89 3704 0044 0532 0130 00").unwrap();
    assert_eq!(ib.country_code(), "DE");
    assert_eq!(ib.bank_code(), "37040044");
    assert_eq!(ib.account_number(), 532013000);
}

#[test]
fn positive_corpus_al_rule_a() {
    let ib = validate("AL47 2121 1009 0000 0002 3569 8741").unwrap();
    assert_eq!(ib.country, Country::Albania);
    assert_eq!(Country::Albania.check_digits(ib.raw()), 0);
    assert!(Country::Albania.custom_validation(ib.raw()));
}

#[test]
fn positive_corpus_cz_rule_c() {
    let ib = validate("CZ65 0800 0000 1920 0014 5399").unwrap();
    assert_eq!(ib.country, Country::CzechRepublic);
    assert!(Country::CzechRepublic.custom_validation(ib.raw()));
}

#[test]
fn belgium_check_digits() {
    let ib = validate("BE68 5390 0754 7034").unwrap();
    assert_eq!(Country::Belgium.check_digits(ib.raw()), 34);
    assert_eq!(ib.bank_code(), "539");
    assert_eq!(ib.account_number(), 75470);
}

#[test]
fn negative_corpus() {
    assert!(matches!(validate(""), Err(ValidationError::InvalidCountryCode)));
    assert!(matches!(validate("F"), Err(ValidationError::InvalidCountryCode)));
    assert!(matches!(validate("FR"), Err(ValidationError::InvalidLength)));
    assert!(matches!(
        validate("ZZ82 WEST 1234 5698 7654 32"),
        Err(ValidationError::InvalidCountryCode)
    ));
    assert!(matches!(
        validate("XXXXXXXXXXXXXXXXXXXXXXXXXXXXXXXXXXX"),
        Err(ValidationError::TooLong)
    ));
    assert!(matches!(
        validate("GB82 WEST 1234 5698 7654 3#"),
        Err(ValidationError::InvalidChar)
    ));
    assert!(matches!(
        validate("DE89 3704 0044 0532 0130 0O"),
        Err(ValidationError::InvalidFormat)
    ));
    assert!(matches!(
        validate("AL47 2121 1009 1000 0002 3569 8741"),
        Err(ValidationError::CountryCheckFailed)
    ));
    assert!(matches!(
        validate("DE89 3704 0044 0532 0130 01"),
        Err(ValidationError::InvalidIban)
    ));
    assert!(matches!(
        validate("BE68 5390 0754 7034 "),
        Ok(_)
    ));
}

#[test]
fn altered_digit_fails_mod97() {
    // one digit altered in the numeric body, everything else intact
    for wrong in [
        "GB82 WEST 1234 5698 7654 31",
        "GB82 WEST 1234 5698 7654 42",
        "GB82 WEST 1235 5698 7654 32",
    ] {
        assert!(matches!(validate(wrong), Err(ValidationError::InvalidIban)));
    }
}

#[test]
fn revalidation_reproduces_the_same_iban() {
    for good in [
        "GB82 WEST 1234 5698 7654 32",
        "DE89 3704 0044 0532 0130 00",
        "AL47 2121 1009 0000 0002 3569 8741",
        "LI21 0881 0000 2324 013A A",
    ] {
        let first = validate(good).unwrap();
        let second = validate(first.raw()).unwrap();
        assert_eq!(first.country, second.country);
        assert_eq!(first.raw(), second.raw());
    }
}

#[test]
fn country_codes_round_trip() {
    let pairs = [
        (Country::Albania, "AL"),
        (Country::Internet, "AA"),
        (Country::Kosovo, "XK"),
        (Country::UnitedKingdom, "GB"),
        (Country::VirginIslands, "VG"),
    ];
    for (co, code) in pairs {
        assert_eq!(co.code(), code);
        let mut chars = code.chars();
        let c0 = chars.next().unwrap();
        let c1 = chars.next().unwrap();
        assert_eq!(Country::from_code(c0, c1), Some(co));
    }
    assert_eq!(Country::from_code('Z', 'Z'), None);
    assert_eq!(Country::from_code('g', 'b'), None);
}

#[test]
fn error_messages_are_nonempty() {
    let errors = [
        ValidationError::TooLong,
        ValidationError::InvalidChar,
        ValidationError::InvalidCountryCode,
        ValidationError::InvalidLength,
        ValidationError::InvalidFormat,
        ValidationError::CountryCheckFailed,
        ValidationError::InvalidIban,
    ];
    for e in errors {
        assert!(!e.message().is_empty());
    }
    assert_eq!(
        ValidationError::TooLong.message(),
        "Input is longer than 34 characters."
    );
}
