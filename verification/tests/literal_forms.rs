use near_syn::literal::literal_ok;

const SYMBOLS: &[u8] = b"\"'\\rbc#xu{}0189afeE_.+-n\n\rDp ";

/// Hands every accepted text over `SYMBOLS` that begins with `first` and is
/// a literal token to the parser, in the places where it reads literals. A
/// text that the parser does not read to its end would stop the test.
fn check_agrees_with_the_parser(first: u8, longest: usize) -> usize {
    let mut read = 0;
    let mut text = vec![first];
    let mut at = vec![0usize];
    loop {
        let candidate = std::str::from_utf8(&text).unwrap();
        if literal_ok(candidate) {
            if let Ok(literal) = candidate.parse::<proc_macro2::Literal>() {
                let _ = syn::Lit::new(literal);
                let _ = syn::parse_str::<syn::Lit>(&format!("-{}", candidate));
                let _ = syn::parse_str::<syn::Expr>(&format!("f(-{}, {})", candidate, candidate));
                let _ = syn::parse_str::<syn::Expr>(&format!("a.{}", candidate));
                let _ = syn::parse_str::<syn::Pat>(&format!("-{} ..= {}", candidate, candidate));
                let _ = syn::parse_str::<syn::Meta>(&format!("a(b = {}, {})", candidate, candidate));
                let _ = syn::parse_str::<syn::Meta>(&format!("a = -{}", candidate));
                read += 1;
            }
        }
        if text.len() < longest {
            text.push(SYMBOLS[0]);
            at.push(0);
            continue;
        }
        loop {
            let last = at.len() - 1;
            if last == 0 {
                return read;
            }
            if at[last] + 1 < SYMBOLS.len() {
                at[last] += 1;
                text[last] = SYMBOLS[at[last]];
                break;
            }
            at.pop();
            text.pop();
        }
    }
}

#[test]
fn check_of_strings_agrees_with_the_parser() {
    assert!(check_agrees_with_the_parser(b'"', 5) > 1000);
}

#[test]
fn check_of_raw_strings_agrees_with_the_parser() {
    assert!(check_agrees_with_the_parser(b'r', 5) > 100);
}

#[test]
fn check_of_byte_literals_agrees_with_the_parser() {
    assert!(check_agrees_with_the_parser(b'b', 5) > 100);
}

#[test]
fn check_of_characters_agrees_with_the_parser() {
    assert!(check_agrees_with_the_parser(b'\'', 5) > 10);
}

#[test]
fn check_of_numbers_from_0_agrees_with_the_parser() {
    assert!(check_agrees_with_the_parser(b'0', 4) > 100);
}

#[test]
fn check_of_numbers_from_1_agrees_with_the_parser() {
    assert!(check_agrees_with_the_parser(b'1', 4) > 100);
}

#[test]
fn check_of_numbers_from_8_agrees_with_the_parser() {
    assert!(check_agrees_with_the_parser(b'8', 4) > 100);
}

#[test]
fn check_of_c_strings_agrees_with_the_parser() {
    assert_eq!(check_agrees_with_the_parser(b'c', 5), 0);
}
