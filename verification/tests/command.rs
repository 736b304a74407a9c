use utf8_locale::{CommandEnv, CommandUtf8Ext};

fn b(s: &str) -> Vec<u8> {
    s.as_bytes().to_vec()
}

#[test]
fn coerce_empty_environment() {
    let mut env = CommandEnv::new();
    env.set_c_locale();
    assert_eq!(env.get(&b("LANG")), Some(&b("C")));
    assert_eq!(env.get(&b("LC_ALL")), Some(&b("C")));
    assert_eq!(env.get(&b("LC_CTYPE")), Some(&b("C")));
    // Nothing besides the three locale variables is set.
    assert_eq!(env.get(&b("PATH")), None);
    assert_eq!(env.get(&b("LC_MESSAGES")), None);
}

#[test]
fn coerce_overwrites_existing_values() {
    let mut env = CommandEnv::new();
    env.env(b("LANG"), b("en_US.UTF-8"));
    env.env(b("LC_ALL"), b("de_DE.UTF-8"));
    env.env(b("TERM"), b("xterm"));
    env.set_c_locale();
    assert_eq!(env.get(&b("LANG")), Some(&b("C")));
    assert_eq!(env.get(&b("LC_ALL")), Some(&b("C")));
    assert_eq!(env.get(&b("LC_CTYPE")), Some(&b("C")));
    // Unrelated variables are untouched.
    assert_eq!(env.get(&b("TERM")), Some(&b("xterm")));
}

#[test]
fn env_inserts_and_overwrites() {
    let mut env = CommandEnv::new();
    assert_eq!(env.get(&b("LANG")), None);
    env.env(b("LANG"), b("C"));
    assert_eq!(env.get(&b("LANG")), Some(&b("C")));
    env.env(b("LANG"), b("en_US.UTF-8"));
    assert_eq!(env.get(&b("LANG")), Some(&b("en_US.UTF-8")));
}
