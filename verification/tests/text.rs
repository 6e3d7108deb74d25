use focusmute::text::{eq_ignore_ascii_case, parse_u16, trim};

#[test]
fn ascii_case_comparison_matches_std() {
    let cases = [
        ("ru", "RU"),
        ("ru", "rU"),
        ("ru", "r"),
        ("Scarlett Solo 4th Gen", "SCARLETT SOLO 4TH GEN"),
        ("Straße", "STRAßE"),
        ("Straße", "STRASSE"),
        ("é", "É"),
        ("[", "{"),
        ("@", "`"),
        ("", ""),
    ];
    for (a, b) in cases {
        assert_eq!(eq_ignore_ascii_case(a, b), a.eq_ignore_ascii_case(b), "{a} / {b}");
    }
}

#[test]
fn trim_matches_std() {
    for s in ["", "  ", " a ", "\t\na b\r\n", "\u{2003}x\u{3000}", "\u{85}y\u{a0}", "z"] {
        assert_eq!(trim(s), s.trim(), "{s:?}");
    }
}

#[test]
fn parse_u16_matches_std() {
    for s in ["0", "1", "+1", "-1", "", "+", "65535", "65536", "00012", "1a", " 1", "٣", "+-1"] {
        assert_eq!(parse_u16(s), s.parse::<u16>().ok(), "{s:?}");
    }
}
