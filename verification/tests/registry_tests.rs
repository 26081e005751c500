use mcli::registry::{CommandKind, Module, ModuleManager};

fn descriptor(name: &str, desc: &str, kind: CommandKind) -> Module {
    Module {
        name: name.to_string(),
        desc: desc.to_string(),
        kind,
    }
}

#[test]
fn new_registers_every_subcommand() {
    let mm = ModuleManager::new();
    let file = mm.lookup("file").expect("file subcommand registered");
    assert_eq!(file.name, "file");
    assert!(matches!(file.kind, CommandKind::FileOps));
    let time = mm.lookup("time").expect("time subcommand registered");
    assert_eq!(time.name, "time");
    assert!(matches!(time.kind, CommandKind::TimeOps));
}

#[test]
fn lookup_of_unregistered_name_is_none() {
    let mm = ModuleManager::new();
    assert!(mm.lookup("files").is_none());
    assert!(mm.lookup("").is_none());
    assert!(mm.lookup("FILE").is_none());
}

#[test]
fn lookup_returns_what_was_registered() {
    let mut mm = ModuleManager { modules: Vec::new() };
    assert!(mm.lookup("alpha").is_none());
    mm.register(descriptor("alpha", "first", CommandKind::FileOps));
    mm.register(descriptor("beta", "second", CommandKind::TimeOps));
    let a = mm.lookup("alpha").unwrap();
    assert_eq!(a.name, "alpha");
    assert_eq!(a.desc, "first");
    let b = mm.lookup("beta").unwrap();
    assert_eq!(b.desc, "second");
    assert!(mm.lookup("gamma").is_none());
}

#[test]
fn later_registration_shadows_earlier_one() {
    let mut mm = ModuleManager { modules: Vec::new() };
    mm.register(descriptor("alpha", "first", CommandKind::FileOps));
    mm.register(descriptor("alpha", "replacement", CommandKind::FileOps));
    mm.register(descriptor("beta", "other", CommandKind::TimeOps));
    assert_eq!(mm.lookup("alpha").unwrap().desc, "replacement");
    assert_eq!(mm.lookup("beta").unwrap().desc, "other");
}
