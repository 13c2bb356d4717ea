use prefix_parse::{FromStrRadix, PrefixParse};

fn digit(c: char) -> Option<u32> {
    match c {
        '0'..='9' => Some(c as u32 - '0' as u32),
        'a'..='z' => Some(c as u32 - 'a' as u32 + 10),
        'A'..='Z' => Some(c as u32 - 'A' as u32 + 10),
        _ => None,
    }
}

fn magnitude(s: &[char], radix: u32) -> Option<i128> {
    if s.is_empty() {
        return None;
    }
    let mut value: i128 = 0;
    for &c in s {
        match digit(c) {
            Some(d) if d < radix => value = (value * radix as i128 + d as i128).min(1 << 100),
            _ => return None,
        }
    }
    Some(value)
}

fn literal(s: &[char], radix: u32, signed: bool, lo: i128, hi: i128) -> Option<i128> {
    let value = if !s.is_empty() && s[0] == '+' {
        magnitude(&s[1..], radix)
    } else if signed && !s.is_empty() && s[0] == '-' {
        magnitude(&s[1..], radix).map(|n| -n)
    } else {
        magnitude(s, radix)
    };
    value.filter(|n| lo <= *n && *n <= hi)
}

fn texts(alphabet: &[char], longest: usize) -> Vec<Vec<char>> {
    let mut all: Vec<Vec<char>> = vec![Vec::new()];
    let mut last: Vec<Vec<char>> = vec![Vec::new()];
    for _ in 0..longest {
        let mut next = Vec::new();
        for t in &last {
            for &c in alphabet {
                let mut longer = t.clone();
                longer.push(c);
                next.push(longer);
            }
        }
        all.extend(next.iter().cloned());
        last = next;
    }
    all
}

const ALPHABET: [char; 13] = ['+', '-', '0', '1', '2', '7', '9', 'a', 'f', 'Z', ' ', '_', '\u{e9}'];

#[test]
fn reading_u8_follows_the_notation() {
    for t in texts(&ALPHABET, 4) {
        let text: String = t.iter().collect();
        for radix in 2..=36 {
            let expected = literal(&t, radix, false, 0, 255).map(|n| n as u8);
            let got = <u8 as FromStrRadix>::from_str_radix(&text, radix).ok();
            assert_eq!(got, expected, "{:?} in radix {}", text, radix);
        }
    }
}

#[test]
fn reading_i8_follows_the_notation() {
    for t in texts(&ALPHABET, 4) {
        let text: String = t.iter().collect();
        for radix in 2..=36 {
            let expected = literal(&t, radix, true, -128, 127).map(|n| n as i8);
            let got = <i8 as FromStrRadix>::from_str_radix(&text, radix).ok();
            assert_eq!(got, expected, "{:?} in radix {}", text, radix);
        }
    }
}

#[test]
fn reading_u16_follows_the_notation() {
    for t in texts(&['+', '-', '0', '1', '5', '9', 'f', 'z'], 5) {
        let text: String = t.iter().collect();
        for radix in [2, 8, 10, 16, 36] {
            let expected = literal(&t, radix, false, 0, 65535).map(|n| n as u16);
            let got = <u16 as FromStrRadix>::from_str_radix(&text, radix).ok();
            assert_eq!(got, expected, "{:?} in radix {}", text, radix);
        }
    }
}

#[test]
fn reading_i16_follows_the_notation() {
    for t in texts(&['+', '-', '0', '1', '5', '9', 'f', 'z'], 5) {
        let text: String = t.iter().collect();
        for radix in [2, 8, 10, 16, 36] {
            let expected = literal(&t, radix, true, -32768, 32767).map(|n| n as i16);
            let got = <i16 as FromStrRadix>::from_str_radix(&text, radix).ok();
            assert_eq!(got, expected, "{:?} in radix {}", text, radix);
        }
    }
}

#[test]
fn reading_wide_types_at_their_bounds() {
    for radix in 2..=36u32 {
        let below_u32 = to_radix(u32::MAX as u128, radix);
        let above_u32 = to_radix(u32::MAX as u128 + 1, radix);
        assert_eq!(<u32 as FromStrRadix>::from_str_radix(&below_u32, radix), Ok(u32::MAX));
        assert!(<u32 as FromStrRadix>::from_str_radix(&above_u32, radix).is_err());
        let below_i32 = to_radix(i32::MAX as u128, radix);
        let above_i32 = to_radix(i32::MAX as u128 + 1, radix);
        assert_eq!(<i32 as FromStrRadix>::from_str_radix(&below_i32, radix), Ok(i32::MAX));
        assert!(<i32 as FromStrRadix>::from_str_radix(&above_i32, radix).is_err());
        let lowest_i32 = format!("-{}", above_i32);
        assert_eq!(<i32 as FromStrRadix>::from_str_radix(&lowest_i32, radix), Ok(i32::MIN));
        let under_i32 = format!("-{}", to_radix(i32::MAX as u128 + 2, radix));
        assert!(<i32 as FromStrRadix>::from_str_radix(&under_i32, radix).is_err());
        let below_u64 = to_radix(u64::MAX as u128, radix);
        let above_u64 = to_radix(u64::MAX as u128 + 1, radix);
        assert_eq!(<u64 as FromStrRadix>::from_str_radix(&below_u64, radix), Ok(u64::MAX));
        assert!(<u64 as FromStrRadix>::from_str_radix(&above_u64, radix).is_err());
        let below_i64 = to_radix(i64::MAX as u128, radix);
        let above_i64 = to_radix(i64::MAX as u128 + 1, radix);
        assert_eq!(<i64 as FromStrRadix>::from_str_radix(&below_i64, radix), Ok(i64::MAX));
        assert!(<i64 as FromStrRadix>::from_str_radix(&above_i64, radix).is_err());
        let lowest_i64 = format!("-{}", above_i64);
        assert_eq!(<i64 as FromStrRadix>::from_str_radix(&lowest_i64, radix), Ok(i64::MIN));
        let top_u128 = to_radix(u128::MAX, radix);
        assert_eq!(<u128 as FromStrRadix>::from_str_radix(&top_u128, radix), Ok(u128::MAX));
        let past_u128 = format!("{}0", top_u128);
        assert!(<u128 as FromStrRadix>::from_str_radix(&past_u128, radix).is_err());
        let top_i128 = to_radix(i128::MAX as u128, radix);
        assert_eq!(<i128 as FromStrRadix>::from_str_radix(&top_i128, radix), Ok(i128::MAX));
        let past_i128 = to_radix(i128::MAX as u128 + 1, radix);
        assert!(<i128 as FromStrRadix>::from_str_radix(&past_i128, radix).is_err());
        let lowest_i128 = format!("-{}", past_i128);
        assert_eq!(<i128 as FromStrRadix>::from_str_radix(&lowest_i128, radix), Ok(i128::MIN));
        let top_usize = to_radix(usize::MAX as u128, radix);
        let past_usize = to_radix(usize::MAX as u128 + 1, radix);
        assert_eq!(<usize as FromStrRadix>::from_str_radix(&top_usize, radix), Ok(usize::MAX));
        assert!(<usize as FromStrRadix>::from_str_radix(&past_usize, radix).is_err());
        let top_isize = to_radix(isize::MAX as u128, radix);
        let past_isize = to_radix(isize::MAX as u128 + 1, radix);
        assert_eq!(<isize as FromStrRadix>::from_str_radix(&top_isize, radix), Ok(isize::MAX));
        assert!(<isize as FromStrRadix>::from_str_radix(&past_isize, radix).is_err());
        let lowest_isize = format!("-{}", past_isize);
        assert_eq!(<isize as FromStrRadix>::from_str_radix(&lowest_isize, radix), Ok(isize::MIN));
    }
}

fn to_radix(mut n: u128, radix: u32) -> String {
    let digits: Vec<char> = "0123456789abcdefghijklmnopqrstuvwxyz".chars().collect();
    let mut out = Vec::new();
    loop {
        out.push(digits[(n % radix as u128) as usize]);
        n /= radix as u128;
        if n == 0 {
            break;
        }
    }
    out.iter().rev().collect()
}

#[test]
fn prefixed_digits_parse_to_their_value() {
    for n in 0..=300u32 {
        assert_eq!(u32::parse(&format!("0x{}", to_radix(n as u128, 16))), Ok(n));
        assert_eq!(u32::parse(&format!("0o{}", to_radix(n as u128, 8))), Ok(n));
        assert_eq!(u32::parse(&format!("0b{}", to_radix(n as u128, 2))), Ok(n));
        assert_eq!(u32::parse(&to_radix(n as u128, 10)), Ok(n));
        assert_eq!(u8::parse(&format!("0x{}", to_radix(n as u128, 16))).is_ok(), n <= 255);
        assert_eq!(i8::parse(&format!("0o{}", to_radix(n as u128, 8))).is_ok(), n <= 127);
        assert_eq!(u8::parse(&to_radix(n as u128, 10)).ok(), u8::try_from(n).ok());
    }
}
