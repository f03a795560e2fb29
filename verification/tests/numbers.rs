use rena::text::{chars_of, parse_usize, render_decimal, NumberError};
use rena::util::{validate_directory, validate_usize};

const SAMPLES: &[&str] = &[
    "",
    "0",
    "7",
    "10",
    "007",
    "+5",
    "+",
    "-",
    "-5",
    "++5",
    "5+",
    " 5",
    "5 ",
    "1_000",
    "12a",
    "a12",
    "١٢",
    "18446744073709551615",
    "18446744073709551616",
    "4294967295",
    "4294967296",
    "99999999999999999999999",
    "99999999999999999999999a",
    "9a9999999999999999999999",
    "+18446744073709551615",
    "000000000000000000000000000001",
    "184467440737095516150",
];

#[test]
fn parse_usize_agrees_with_std() {
    for sample in SAMPLES {
        let ours = parse_usize(sample);
        let theirs = sample.parse::<usize>();
        match (ours, theirs) {
            (Ok(a), Ok(b)) => assert_eq!(a, b, "on {:?}", sample),
            (Err(_), Err(_)) => {}
            (a, b) => panic!("on {:?}: {:?} against {:?}", sample, a, b),
        }
    }
}

#[test]
fn validate_usize_says_what_std_says() {
    for sample in SAMPLES {
        let expected = match sample.parse::<usize>() {
            Ok(_) => Ok(()),
            Err(e) => Err(format!("Failed to parse usize: {}", e)),
        };
        assert_eq!(validate_usize(sample), expected, "on {:?}", sample);
    }
}

#[test]
fn each_number_error_has_its_input() {
    assert_eq!(parse_usize(""), Err(NumberError::Empty));
    assert_eq!(parse_usize("+"), Err(NumberError::InvalidDigit));
    assert_eq!(parse_usize("12x"), Err(NumberError::InvalidDigit));
    assert_eq!(parse_usize("340282366920938463463374607431768211456"), Err(NumberError::TooLarge));
    assert_eq!(parse_usize("340282366920938463463374607431768211456x"), Err(NumberError::TooLarge));
    assert_eq!(parse_usize("+42"), Ok(42));
    assert_eq!(parse_usize("0"), Ok(0));
    assert_eq!(parse_usize(&usize::MAX.to_string()), Ok(usize::MAX));
}

#[test]
fn validate_usize_messages() {
    assert_eq!(validate_usize("12"), Ok(()));
    assert_eq!(
        validate_usize(""),
        Err("Failed to parse usize: cannot parse integer from empty string".to_string())
    );
    assert_eq!(
        validate_usize("abc"),
        Err("Failed to parse usize: invalid digit found in string".to_string())
    );
    assert_eq!(
        validate_usize("340282366920938463463374607431768211456"),
        Err("Failed to parse usize: number too large to fit in target type".to_string())
    );
}

#[test]
fn render_decimal_agrees_with_std() {
    for n in [0usize, 1, 9, 10, 11, 99, 100, 12345, 1_000_000, usize::MAX, usize::MAX - 1] {
        let ours: String = render_decimal(n).into_iter().collect();
        assert_eq!(ours, n.to_string());
    }
}

#[test]
fn chars_of_gives_every_character() {
    assert_eq!(chars_of("aé€😀"), vec!['a', 'é', '€', '😀']);
    assert_eq!(chars_of(""), Vec::<char>::new());
}

#[test]
fn validate_directory_wants_an_existing_directory() {
    assert_eq!(validate_directory("some/dir", true, true), Ok(()));
    assert_eq!(
        validate_directory("some/file", true, false),
        Err("Invalid directory: some/file".to_string())
    );
    assert_eq!(
        validate_directory("nowhere", false, false),
        Err("Invalid directory: nowhere".to_string())
    );
    assert_eq!(validate_directory("", false, true), Err("Invalid directory: ".to_string()));
}
