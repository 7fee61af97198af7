use ministat::{get_symbols, Opt};

#[test]
fn test_custom_symbols() {
    let opt_classic = Opt {
        modern_chars: false,
        ..Opt::default()
    };
    let opt_modern = Opt {
        modern_chars: true,
        ..Opt::default()
    };
    let opt_custom = Opt {
        symbols: Some("a2³$e6".into()),
        ..Opt::default()
    };
    assert_eq!(
        vec![' ', 'x', '+', '*', '%', '#', '@', 'O'],
        get_symbols(&opt_classic)
    );
    assert_eq!(
        vec![' ', '●', '○', '◾', '◽', '◆', '◇', '▲'],
        get_symbols(&opt_modern)
    );
    assert_eq!(
        vec![' ', 'a', '2', '³', '$', 'e', '6'],
        get_symbols(&opt_custom)
    );
}
