use tso::cli_config::{Config, Mode};

#[test]
fn mode_names() {
    assert_eq!(Mode::Repl.name(), "repl");
    assert_eq!(Mode::Python.name(), "python");
    assert_eq!(Mode::Interpret.name(), "interpret");
    assert_eq!(Mode::default(), Mode::Repl);
}

#[test]
fn config_accessors() {
    let c = Config::new(Mode::Python, Some("in.tso".to_string()), Some("out.py".to_string()));
    assert_eq!(*c.mode(), Mode::Python);
    assert_eq!(c.input(), Some("in.tso"));
    assert_eq!(c.output(), Some("out.py"));
    let d = Config::new(Mode::Repl, None, None);
    assert_eq!(*d.mode(), Mode::Repl);
    assert_eq!(d.input(), None);
    assert_eq!(d.output(), None);
}
