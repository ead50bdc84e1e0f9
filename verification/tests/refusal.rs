use serde_bytes_base64::{Bytes, DecodeError};

fn is_symbol(c: char) -> bool {
    c.is_ascii_alphanumeric() || c == '+' || c == '/'
}

fn has_foreign_char(text: &[char]) -> bool {
    text.iter().any(|&c| !is_symbol(c) && c != '=')
}

fn has_misplaced_padding(text: &[char]) -> bool {
    (0..text.len()).any(|i| {
        text[i] == '=' && (i % 4 < 2 || (i + 1 < text.len() && text[i + 1] != '='))
    })
}

fn texts_up_to(len: usize, letters: &[char]) -> Vec<Vec<char>> {
    let mut all: Vec<Vec<char>> = vec![Vec::new()];
    let mut last: Vec<Vec<char>> = vec![Vec::new()];
    for _ in 0..len {
        let mut next = Vec::with_capacity(last.len() * letters.len());
        for text in &last {
            for &letter in letters {
                let mut longer = text.clone();
                longer.push(letter);
                next.push(longer);
            }
        }
        all.extend(next.iter().cloned());
        last = next;
    }
    all
}

#[test]
fn every_short_text_with_a_visible_fault_is_refused() {
    let letters = ['A', 'Q', 'w', '/', '=', ' ', '\u{e9}'];
    for text in texts_up_to(6, &letters) {
        let faulty =
            has_foreign_char(&text) || has_misplaced_padding(&text) || text.len() % 4 == 1;
        if faulty {
            let shown: String = text.iter().collect();
            assert!(Bytes::from_wire(&shown).is_err(), "{:?}", shown);
        }
    }
}

#[test]
fn texts_of_nine_characters_are_refused_for_their_length() {
    let letters = ['A', 'Q', '='];
    for text in texts_up_to(9, &letters) {
        if text.len() == 9 {
            let shown: String = text.iter().collect();
            assert!(Bytes::from_wire(&shown).is_err(), "{:?}", shown);
        }
    }
}

#[test]
fn padding_before_the_last_group_is_refused() {
    assert_eq!(Bytes::from_wire("AQ==AQID"), Err(DecodeError::InvalidByte(2, b'=')));
    assert_eq!(Bytes::from_wire("AQI=AQID"), Err(DecodeError::InvalidByte(3, b'=')));
    assert_eq!(Bytes::from_wire("AQ==AQIDAQIDAQID"), Err(DecodeError::InvalidByte(2, b'=')));
    let mut long = "AQID".repeat(20);
    long.replace_range(6..7, "=");
    assert_eq!(Bytes::from_wire(&long), Err(DecodeError::InvalidByte(6, b'=')));
}

#[test]
fn a_fault_is_found_in_long_texts_too() {
    for at in 0..80usize {
        let mut long = "AQID".repeat(20);
        long.replace_range(at..at + 1, "*");
        assert_eq!(Bytes::from_wire(&long), Err(DecodeError::InvalidByte(at, b'*')));
    }
}

#[test]
fn misplaced_padding_is_found_in_long_texts_too() {
    for len in 72..=80usize {
        let base: String = "AQID".repeat(20).chars().take(len).collect();
        for at in 0..len {
            let mut text: Vec<char> = base.chars().collect();
            text[at] = '=';
            if has_misplaced_padding(&text) || text.len() % 4 == 1 {
                let shown: String = text.iter().collect();
                assert!(Bytes::from_wire(&shown).is_err(), "{:?}", shown);
            }
        }
    }
}

#[test]
fn every_buffer_of_up_to_two_bytes_comes_back() {
    assert_eq!(Bytes::from_wire(&Bytes::default().to_wire()), Ok(Bytes::default()));
    for first in 0..=255u8 {
        let one = Bytes::from(vec![first]);
        assert_eq!(Bytes::from_wire(&one.to_wire()), Ok(one));
        for second in 0..=255u8 {
            let two = Bytes::from(vec![first, second]);
            assert_eq!(Bytes::from_wire(&two.to_wire()), Ok(two));
        }
    }
}

#[test]
fn different_buffers_have_different_texts() {
    let mut seen = std::collections::HashSet::new();
    assert!(seen.insert(Bytes::default().to_wire()));
    for first in 0..=255u8 {
        assert!(seen.insert(Bytes::from(vec![first]).to_wire()));
        for second in 0..=255u8 {
            assert!(seen.insert(Bytes::from(vec![first, second]).to_wire()));
        }
    }
    assert_eq!(seen.len(), 1 + 256 + 256 * 256);
}
