use ploteria::version::{is_whitespace, NumberError, Output};
use ploteria::{parse_version, VersionError};

#[test]
fn version() {
    let output = Output {
        success: true,
        stdout: "gnuplot 5.2 patchlevel 8\n".as_bytes().to_vec(),
        stderr: Vec::new(),
    };
    if let Ok(version) = ploteria::version(Ok(output)) {
        assert!(version.major >= 4);
    } else {
        println!("Gnuplot not installed.");
    }
}

#[test]
fn test_parse_version_on_valid_string() {
    let string = "gnuplot 5.0 patchlevel 7";
    let version = parse_version(&string).unwrap();
    assert_eq!(5, version.major);
    assert_eq!(0, version.minor);
    assert_eq!("7", &version.patch);
}

#[test]
fn test_parse_gentoo_version() {
    let string = "gnuplot 5.2 patchlevel 5a (Gentoo revision r0)";
    let version = parse_version(&string).unwrap();
    assert_eq!(5, version.major);
    assert_eq!(2, version.minor);
    assert_eq!("5a", &version.patch);
}

#[test]
fn test_parse_version_returns_error_on_invalid_strings() {
    let strings = [
        "",
        "foobar",
        "gnuplot 50 patchlevel 7",
        "gnuplot 5.0 patchlevel",
        "gnuplot foo.bar patchlevel 7",
    ];
    for string in &strings {
        assert!(parse_version(string).is_err());
    }
}

#[test]
fn missing_words_give_no_number_error() {
    assert_eq!(parse_version("").unwrap_err(), None);
    assert_eq!(parse_version("   \t\n ").unwrap_err(), None);
    assert_eq!(parse_version("foobar").unwrap_err(), None);
    assert_eq!(parse_version("gnuplot 50 patchlevel 7").unwrap_err(), None);
    assert_eq!(parse_version("gnuplot 5.0 patchlevel").unwrap_err(), None);
    assert_eq!(parse_version("gnuplot 5.0").unwrap_err(), None);
}

#[test]
fn bad_numbers_say_what_is_wrong() {
    assert_eq!(
        parse_version("gnuplot foo.bar patchlevel 7").unwrap_err(),
        Some(NumberError::InvalidDigit)
    );
    assert_eq!(
        parse_version("gnuplot 5.bar patchlevel 7").unwrap_err(),
        Some(NumberError::InvalidDigit)
    );
    assert_eq!(parse_version("gnuplot .5 patchlevel 7").unwrap_err(), Some(NumberError::Empty));
    assert_eq!(parse_version("gnuplot 5. patchlevel 7").unwrap_err(), Some(NumberError::Empty));
    assert_eq!(
        parse_version("gnuplot +.5 patchlevel 7").unwrap_err(),
        Some(NumberError::InvalidDigit)
    );
    assert_eq!(
        parse_version("gnuplot -5.5 patchlevel 7").unwrap_err(),
        Some(NumberError::InvalidDigit)
    );
    assert_eq!(
        parse_version("gnuplot 99999999999999999999999999.5 patchlevel 7").unwrap_err(),
        Some(NumberError::PosOverflow)
    );
    assert_eq!(
        parse_version("gnuplot 9999999999999999999999x999.5 patchlevel 7").unwrap_err(),
        Some(NumberError::PosOverflow)
    );
    assert_eq!(
        parse_version("gnuplot 99x99999999999999999999999.5 patchlevel 7").unwrap_err(),
        Some(NumberError::InvalidDigit)
    );
}

#[test]
fn a_bad_major_number_comes_before_a_missing_dot() {
    assert_eq!(
        parse_version("gnuplot five patchlevel 7").unwrap_err(),
        Some(NumberError::InvalidDigit)
    );
}

#[test]
fn numbers_agree_with_the_standard_parser() {
    let pieces = ["0", "007", "+12", "18446744073709551615", "18446744073709551616", "4294967295"];
    for major in &pieces {
        for minor in &pieces {
            let line = format!("gnuplot {}.{} patchlevel 1", major, minor);
            let expected = match (major.parse::<usize>(), minor.parse::<usize>()) {
                (Ok(a), Ok(b)) => Some((a, b)),
                _ => None,
            };
            let got = parse_version(&line).ok().map(|v| (v.major, v.minor));
            assert_eq!(got, expected);
        }
    }
}

#[test]
fn further_dots_and_words_are_passed_over() {
    let version = parse_version("gnuplot 5.4.2 anything 3rc1 and more").unwrap();
    assert_eq!(version.major, 5);
    assert_eq!(version.minor, 4);
    assert_eq!(version.patch, "3rc1");
}

#[test]
fn words_are_parted_by_any_white_space() {
    let version = parse_version("\t gnuplot\u{a0}6.1\u{2003}\u{3000}patchlevel\r\n0b \n").unwrap();
    assert_eq!(version.major, 6);
    assert_eq!(version.minor, 1);
    assert_eq!(version.patch, "0b");
    let version = parse_version("gnüplot 6.1 pätchlevel π").unwrap();
    assert_eq!(version.patch, "π");
}

#[test]
fn white_space_is_what_the_standard_library_calls_so() {
    let mut code: u32 = 0;
    while code < 0x11_0000 {
        if let Some(c) = char::from_u32(code) {
            assert_eq!(is_whitespace(c), c.is_whitespace());
        }
        code += 1;
    }
}

#[test]
fn a_run_that_succeeded_gives_its_version() {
    let output = Output {
        success: true,
        stdout: "gnuplot 5.2 patchlevel 8\n".as_bytes().to_vec(),
        stderr: Vec::new(),
    };
    let version = ploteria::version(Ok(output)).unwrap();
    assert_eq!(version.major, 5);
    assert_eq!(version.minor, 2);
    assert_eq!(version.patch, "8");
}

#[test]
fn a_run_that_could_not_start_gives_exec() {
    match ploteria::version(Err("No such file or directory".to_string())) {
        Err(VersionError::Exec(reason)) => assert_eq!(reason, "No such file or directory"),
        _ => panic!("expected an execution error"),
    }
}

#[test]
fn a_run_that_failed_gives_its_error_message() {
    let output = Output {
        success: false,
        stdout: "gnuplot 5.2 patchlevel 8\n".as_bytes().to_vec(),
        stderr: "böse\n".as_bytes().to_vec(),
    };
    match ploteria::version(Ok(output)) {
        Err(VersionError::Error(message)) => assert_eq!(message, "böse\n"),
        _ => panic!("expected the error message"),
    }
}

#[test]
fn output_that_is_not_utf8_gives_output_error() {
    let output = Output { success: true, stdout: vec![0x67, 0xff, 0x20], stderr: Vec::new() };
    assert!(matches!(ploteria::version(Ok(output)), Err(VersionError::OutputError)));
    let output = Output { success: false, stdout: Vec::new(), stderr: vec![0xc3] };
    assert!(matches!(ploteria::version(Ok(output)), Err(VersionError::OutputError)));
}

#[test]
fn output_that_announces_no_version_gives_parse_error_with_the_text() {
    let output = Output {
        success: true,
        stdout: "gnuplot 50 patchlevel 7".as_bytes().to_vec(),
        stderr: Vec::new(),
    };
    match ploteria::version(Ok(output)) {
        Err(VersionError::ParseError(text)) => assert_eq!(text, "gnuplot 50 patchlevel 7"),
        _ => panic!("expected a parse error"),
    }
}

#[test]
fn errors_describe_themselves() {
    let exec = VersionError::Exec("denied".to_string());
    assert_eq!(exec.message(), "`gnuplot --version` failed: denied");
    assert_eq!(exec.description(), "Execution Error");
    assert_eq!(exec.cause(), Some("denied"));

    let error = VersionError::Error("boom".to_string());
    assert_eq!(error.message(), "`gnuplot --version` failed with error message:\nboom");
    assert_eq!(error.description(), "Other Error");
    assert_eq!(error.cause(), None);

    let output = VersionError::OutputError;
    assert_eq!(output.message(), "`gnuplot --version` returned invalid utf-8");
    assert_eq!(output.description(), "Output Error");
    assert_eq!(output.cause(), None);

    let parse = VersionError::ParseError("foobar".to_string());
    assert_eq!(
        parse.message(),
        "`gnuplot --version` returned an unparseable version string: foobar"
    );
    assert_eq!(parse.description(), "Parse Error");
    assert_eq!(parse.cause(), None);
}
