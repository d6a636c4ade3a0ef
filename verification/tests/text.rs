use std::str::FromStr;
use tpm2sh::handle::Handle;
use tpm2sh::input::{check_file_input, decode_hex_input, InputError};
use tpm2sh::policy::token::{tokenize, try_tokenize, Token};
use tpm2sh::scheme::{Scheme, SchemeError};

#[test]
fn scheme_parsing() {
    assert_eq!(Scheme::from_str("tpm:81000001"), Ok(Scheme::Tpm(0x8100_0001)));
    assert_eq!(Scheme::from_str("password:0a0B"), Ok(Scheme::Password(vec![0x0a, 0x0b])));
    assert_eq!(Scheme::from_str("policy:"), Ok(Scheme::Policy(vec![])));
    assert_eq!(Scheme::from_str("vtpm:03000001"), Ok(Scheme::Session(0x0300_0001)));
    assert_eq!(Scheme::from_str("vtpm:80000002"), Ok(Scheme::Transient(0x8000_0002)));
    assert_eq!(Scheme::from_str("/tmp/key.pem"), Ok(Scheme::Path("/tmp/key.pem".to_string())));
    assert_eq!(Scheme::from_str("key.pem"), Ok(Scheme::Path("key.pem".to_string())));
    assert_eq!(Scheme::from_str("c:\\key"), Ok(Scheme::Path("c:\\key".to_string())));
    assert_eq!(Scheme::from_str("/a:b"), Ok(Scheme::Path("/a:b".to_string())));
}

#[test]
fn scheme_errors() {
    assert_eq!(Scheme::from_str("foo:bar"), Err(SchemeError::UnsupportedScheme("foo:bar".to_string())));
    assert_eq!(Scheme::from_str("vtpm:81000001"), Err(SchemeError::UnsupportedScheme("vtpm:81000001".to_string())));
    assert_eq!(
        Scheme::from_str("tpm:xyz"),
        Err(SchemeError::InvalidHandleFormat("invalid digit found in string".to_string()))
    );
    assert_eq!(
        Scheme::from_str("tpm:"),
        Err(SchemeError::InvalidHandleFormat("cannot parse integer from empty string".to_string()))
    );
    assert_eq!(Scheme::from_str("password:abc"), Err(SchemeError::InvalidHexFormat("Odd number of digits".to_string())));
    assert_eq!(
        Scheme::from_str("password:zz"),
        Err(SchemeError::InvalidHexFormat("Invalid character 'z' at position 0".to_string()))
    );
    assert_eq!(
        Scheme::from_str("policy:0g"),
        Err(SchemeError::InvalidHexFormat(hex::decode("0g").unwrap_err().to_string()))
    );
}

#[test]
fn scheme_display_and_handles() {
    assert_eq!(Scheme::Tpm(0x8100_0001).to_string(), "tpm:81000001");
    assert_eq!(Scheme::Session(0x0300_0001).to_string(), "vtpm:03000001");
    assert_eq!(Scheme::Transient(0x8000_0002).to_string(), "vtpm:2147483650");
    assert_eq!(Scheme::Password(vec![0xde, 0xad]).to_string(), "password:dead");
    assert_eq!(Scheme::Policy(vec![]).to_string(), "policy:");
    assert_eq!(Scheme::Tpm(0x10).to_handle(), Ok(0x10));
    assert_eq!(Scheme::Session(0x0300_0000).to_handle(), Ok(0x0300_0000));
    assert_eq!(
        Scheme::Password(vec![1]).to_handle(),
        Err(SchemeError::UnsupportedScheme("password:01".to_string()))
    );
    for s in [Scheme::Tpm(0x4000_0001), Scheme::Password(vec![0, 255]), Scheme::Policy(vec![7]), Scheme::Session(0x0300_00ff)] {
        assert_eq!(Scheme::from_str(&s.to_string()), Ok(s.clone()));
    }
    // A transient handle is written in decimal and read in hexadecimal.
    assert!(Scheme::from_str(&Scheme::Transient(0x8000_0002).to_string()).is_err());
}

#[test]
fn hex_input() {
    assert_eq!(decode_hex_input("  0a0b\n"), Ok(vec![0x0a, 0x0b]));
    assert_eq!(decode_hex_input(" \n"), Err(InputError::UnexpectedEof));
    assert_eq!(
        decode_hex_input("0a0"),
        Err(InputError::InvalidInput("invalid hex input: Odd number of digits".to_string()))
    );
    assert_eq!(
        decode_hex_input("0a 0bc"),
        Err(InputError::InvalidInput("invalid hex input: Invalid character ' ' at position 2".to_string()))
    );
    assert_eq!(check_file_input(vec![]), Err(InputError::UnexpectedEof));
    assert_eq!(check_file_input(vec![1]), Ok(vec![1]));
}

#[test]
fn tokens() {
    let t = tokenize("(pcr(sha256:0,1) and secret(tpm:40000001)) or 81000001");
    assert_eq!(
        t,
        vec![
            Token::LParen,
            Token::Ident("pcr"),
            Token::LParen,
            Token::Ident("sha256:0"),
            Token::Comma,
            Token::Ident("1"),
            Token::RParen,
            Token::And,
            Token::Ident("secret"),
            Token::LParen,
            Token::Ident("tpm:40000001"),
            Token::RParen,
            Token::RParen,
            Token::Or,
            Token::Ident("81000001"),
        ]
    );
    assert_eq!(tokenize("andor \t or\nand"), vec![Token::Ident("andor"), Token::Or, Token::And]);
    assert_eq!(tokenize(""), vec![]);
    assert_eq!(try_tokenize("a\u{3000}b"), None);
    assert_eq!(try_tokenize("a b"), Some(vec![Token::Ident("a"), Token::Ident("b")]));
    assert_eq!(Token::Ident("x").to_string(), "'x'");
    assert_eq!(Token::Comma.to_string(), "','");
}

#[test]
fn handle_literals_in_tokens() {
    let t = tokenize("80????01");
    assert_eq!(t, vec![Token::Ident("80????01")]);
    if let Token::Ident(s) = t[0] {
        assert_eq!(Handle::from_str(s).unwrap().to_string(), "80????01");
    }
}

#[test]
fn tokens_spell_the_input_without_white_space() {
    let input = " pcr( sha256:0 ,1)\tand\nor x ";
    let t = tokenize(input);
    let mut spelled = String::new();
    for tok in &t {
        match tok {
            Token::And => spelled.push_str("and"),
            Token::Or => spelled.push_str("or"),
            Token::LParen => spelled.push('('),
            Token::RParen => spelled.push(')'),
            Token::Comma => spelled.push(','),
            Token::Ident(s) => {
                assert!(!s.is_empty());
                assert!(!s.chars().any(|c| c.is_whitespace() || "(),".contains(c)));
                spelled.push_str(s);
            }
        }
    }
    let stripped: String = input.chars().filter(|c| !c.is_whitespace()).collect();
    assert_eq!(spelled, stripped);
}
