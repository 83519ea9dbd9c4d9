use taurin::password::{strength_class_of, GenerateRequest, GeneratedPassword, GeneratorMode, GeneratorState};

#[test]
fn fields_are_clamped() {
    let mut s = GeneratorState::new();
    assert_eq!(s.length, 16);
    s.set_length("2");
    assert_eq!(s.length, 4);
    s.set_length("500");
    assert_eq!(s.length, 128);
    s.set_length("oops");
    assert_eq!(s.length, 128);
    s.set_count("0");
    assert_eq!(s.count, 1);
    s.set_count("101");
    assert_eq!(s.count, 100);
    s.set_word_count("1");
    assert_eq!(s.word_count, 2);
    s.set_word_count("11");
    assert_eq!(s.word_count, 10);
}

#[test]
fn generating_and_copying() {
    let mut s = GeneratorState::new();
    match s.generate() {
        GenerateRequest::Passwords(o) => {
            assert_eq!(o.length, 16);
            assert!(o.include_symbols);
        }
        _ => panic!("expected passwords"),
    }
    assert!(s.is_generating);
    let ps = vec![
        GeneratedPassword { value: "abc".to_string(), score: 2, label: "Weak".to_string() },
        GeneratedPassword { value: "xyz".to_string(), score: 5, label: "Very Strong".to_string() },
    ];
    s.on_generated(Some((true, ps)));
    assert!(!s.is_generating);
    assert_eq!(s.generated.len(), 2);
    assert_eq!(s.copy_all_text(), Some("abc\nxyz".to_string()));
    assert_eq!(s.value_at(1), Some("xyz".to_string()));
    assert_eq!(s.value_at(2), None);
    s.set_copied(1, true);
    assert!(s.generated[1].copied && !s.generated[0].copied);
    s.on_generated(Some((false, vec![])));
    assert_eq!(s.generated.len(), 2);
    s.change_mode(GeneratorMode::Passphrase);
    assert!(s.generated.is_empty());
    assert_eq!(s.copy_all_text(), None);
    match s.generate() {
        GenerateRequest::Passphrases(o) => {
            assert_eq!(o.word_count, 4);
            assert_eq!(o.separator, "-");
        }
        _ => panic!("expected passphrases"),
    }
}

#[test]
fn strength_classes() {
    assert_eq!(strength_class_of(1), "strength-very-weak");
    assert_eq!(strength_class_of(3), "strength-medium");
    assert_eq!(strength_class_of(0), "strength-very-strong");
    assert_eq!(strength_class_of(9), "strength-very-strong");
}

#[test]
fn limits_hold_in_every_state() {
    let ok = |s: &GeneratorState| {
        (4..=128).contains(&s.length) && (1..=100).contains(&s.count) && (2..=10).contains(&s.word_count)
    };
    let mut s = GeneratorState::new();
    assert!(ok(&s));
    s.set_word_count("7");
    s.set_length("4000000000");
    s.set_count("-3");
    assert!(ok(&s));
    assert_eq!((s.length, s.count, s.word_count), (128, 1, 7));
    s.change_mode(GeneratorMode::Passphrase);
    assert_eq!((s.length, s.count, s.word_count), (128, 1, 7));
    s.generate();
    assert_eq!((s.length, s.count, s.word_count), (128, 1, 7));
    s.on_generated(None);
    assert!(!s.is_generating);
    assert_eq!((s.length, s.count, s.word_count), (128, 1, 7));
    s.change_mode(GeneratorMode::Password);
    assert_eq!(s.mode, GeneratorMode::Password);
    assert!(ok(&s));
}
