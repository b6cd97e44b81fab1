use passrat::helpers::{gen_password, PassphraseSettings};

fn settings(word_count: usize) -> PassphraseSettings {
    PassphraseSettings {
        word_count,
        padding_char: '.',
        padding_count: 3,
        separator: '-',
        digit_count: 3,
    }
}

#[test]
fn passphrase_has_the_asked_shape() {
    let s = gen_password(settings(3)).unwrap();
    assert!(s.starts_with("...") && s.ends_with("..."));
    let inner: Vec<char> = s[3..s.len() - 3].chars().collect();
    let n = inner.len();
    assert!(n > 8);
    assert!(inner[..3].iter().all(|c| c.is_ascii_digit()));
    assert!(inner[n - 3..].iter().all(|c| c.is_ascii_digit()));
    assert_eq!((inner[3], inner[n - 4]), ('-', '-'));
    let words: String = inner[4..n - 4].iter().collect();
    assert!(words.matches('-').count() >= 2);
    assert!(words.chars().all(|c| c.is_ascii_lowercase() || c == '-'));
}

#[test]
fn other_settings_change_the_layout() {
    let st = PassphraseSettings {
        word_count: 1,
        padding_char: '#',
        padding_count: 1,
        separator: '_',
        digit_count: 2,
    };
    let s = gen_password(st).unwrap();
    assert!(s.starts_with('#') && s.ends_with('#'));
    let inner = &s[1..s.len() - 1];
    let parts: Vec<&str> = inner.split('_').collect();
    assert_eq!(parts.len(), 3);
    assert_eq!(parts[0].len(), 2);
    assert_eq!(parts[2].len(), 2);
}

#[test]
fn too_many_words_is_refused() {
    assert_eq!(
        gen_password(settings(8000)),
        Err("Not enough words in the wordlist: 8000 are needed, but only 7776 are present.".to_string())
    );
    assert!(gen_password(settings(7776)).is_ok());
}
