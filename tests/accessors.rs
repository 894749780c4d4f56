use sysfs::args::{attr_dir, group_dir, require_literal, ArgError, ArgValue, DirArgs, MetaArg};
use sysfs::codegen::{expand, generate, plan_getter, plan_setter, Expansion};
use sysfs::decl::{DeclError, Declaration, InitShape, ParamShape, StmtShape};
use sysfs::path::{effective_dir, resolve_path, AttributeGroup, PathPlan};

const CPUFREQ: &str = "/sys/devices/system/cpu/cpu0/cpufreq";

fn binding(name: &str, init: InitShape) -> StmtShape {
    StmtShape::Binding { name: name.to_string(), init }
}

fn read_closure() -> InitShape {
    InitShape::Closure(vec![ParamShape::Untyped])
}

fn write_closure(param: &str) -> InitShape {
    InitShape::Closure(vec![ParamShape::Typed { ident: Some(param.to_string()) }])
}

fn declaration(name: &str, has_return_type: bool, body: Vec<StmtShape>) -> Declaration {
    Declaration { name: name.to_string(), has_return_type, body }
}

fn expand_ok(d: &Declaration, dir: Option<&str>) -> Expansion {
    match expand(d, dir.map(|s| s.to_string()), None) {
        Ok(e) => e,
        Err(e) => panic!("declaration refused: {:?}", e),
    }
}

fn fixed(p: &PathPlan) -> String {
    match p {
        PathPlan::Fixed(s) => s.clone(),
        PathPlan::Ambient(f) => panic!("expected a fixed path, got ambient {}", f),
    }
}

#[test]
fn cur_freq_getter_targets_its_file() {
    let d = declaration(
        "cur_freq",
        true,
        vec![binding("read", read_closure()), StmtShape::Sentinel],
    );
    let e = expand_ok(&d, Some(CPUFREQ));
    let g = e.getter.expect("getter");
    assert_eq!(g.name, "cur_freq");
    assert_eq!(fixed(&g.path), "/sys/devices/system/cpu/cpu0/cpufreq/cur_freq");
    assert_eq!(g.read_at, 0);
    assert!(g.prologue.is_empty());
    assert!(e.setter.is_none());
}

#[test]
fn scaling_setspeed_setter_targets_base_name() {
    let d = declaration(
        "scaling_setspeed",
        false,
        vec![binding("write", write_closure("freq")), StmtShape::Sentinel],
    );
    let e = expand_ok(&d, Some(CPUFREQ));
    assert!(e.getter.is_none());
    let s = e.setter.expect("setter");
    assert_eq!(s.name, "set_scaling_setspeed");
    assert_eq!(s.value_param, "freq");
    assert_eq!(fixed(&s.path), "/sys/devices/system/cpu/cpu0/cpufreq/scaling_setspeed");
    assert_eq!(s.write_at, 0);
}

#[test]
fn getter_and_setter_share_path() {
    let d = declaration(
        "scaling_governor",
        true,
        vec![
            StmtShape::Other,
            binding("read", read_closure()),
            binding("write", write_closure("governor")),
            StmtShape::Sentinel,
        ],
    );
    let e = expand_ok(&d, Some(CPUFREQ));
    let g = e.getter.expect("getter");
    let s = e.setter.expect("setter");
    assert_eq!(fixed(&g.path), fixed(&s.path));
    assert_eq!(fixed(&g.path), "/sys/devices/system/cpu/cpu0/cpufreq/scaling_governor");
    assert_eq!(g.prologue, vec![0]);
    assert_eq!(s.prologue, vec![0]);
    assert_eq!(g.read_at, 1);
    assert_eq!(s.write_at, 2);
}

#[test]
fn ambient_directory_shared_by_both() {
    let d = declaration(
        "status",
        true,
        vec![
            binding("read", read_closure()),
            binding("write", write_closure("v")),
            StmtShape::Sentinel,
        ],
    );
    let e = expand_ok(&d, None);
    let g = e.getter.expect("getter");
    let s = e.setter.expect("setter");
    assert!(matches!(&g.path, PathPlan::Ambient(f) if f == "status"));
    assert!(matches!(&s.path, PathPlan::Ambient(f) if f == "status"));
    assert_eq!(g.path.resolve("/sys/class/power_supply/BAT0"), "/sys/class/power_supply/BAT0/status");
    assert_eq!(s.path.resolve("/sys/class/power_supply/BAT0"), "/sys/class/power_supply/BAT0/status");
}

#[test]
fn accessor_directory_overrides_group() {
    let d = declaration("energy_now", true, vec![binding("read", read_closure()), StmtShape::Sentinel]);
    let e = expand(&d, Some("/a".to_string()), Some("/b".to_string())).unwrap();
    assert_eq!(fixed(&e.getter.unwrap().path), "/a/energy_now");
    let e = expand(&d, None, Some("/b".to_string())).unwrap();
    assert_eq!(fixed(&e.getter.unwrap().path), "/b/energy_now");
}

#[test]
fn no_transform_gives_nothing() {
    let d = declaration("nothing", false, vec![StmtShape::Other, StmtShape::Sentinel]);
    let e = expand_ok(&d, Some(CPUFREQ));
    assert!(e.getter.is_none());
    assert!(e.setter.is_none());
}

#[test]
fn last_read_binding_wins() {
    let d = declaration(
        "x",
        true,
        vec![
            binding("read", read_closure()),
            binding("other", InitShape::Other),
            binding("read", read_closure()),
            StmtShape::Sentinel,
        ],
    );
    let desc = d.validate().unwrap();
    assert_eq!(desc.read_at, Some(2));
    assert_eq!(desc.prologue, vec![0, 1]);
}

#[test]
fn missing_sentinel_refused() {
    let d = declaration("x", true, vec![binding("read", read_closure())]);
    assert_eq!(d.validate().err(), Some(DeclError::MissingSentinel));
    let d = declaration("x", true, vec![]);
    assert_eq!(d.validate().err(), Some(DeclError::MissingSentinel));
    let d = declaration("x", true, vec![StmtShape::Sentinel, StmtShape::Other]);
    assert_eq!(d.validate().err(), Some(DeclError::MissingSentinel));
}

#[test]
fn read_without_return_type_refused() {
    let d = declaration(
        "x",
        false,
        vec![StmtShape::Other, binding("read", read_closure()), StmtShape::Sentinel],
    );
    assert_eq!(d.validate().err(), Some(DeclError::MissingReturnType { at: 1 }));
}

#[test]
fn sentinel_checked_before_return_type() {
    let d = declaration("x", false, vec![binding("read", read_closure())]);
    assert_eq!(d.validate().err(), Some(DeclError::MissingSentinel));
}

#[test]
fn malformed_write_refused() {
    let cases = vec![
        (InitShape::Diverging, DeclError::WriteDiverges { at: 0 }),
        (InitShape::Other, DeclError::WriteNotClosure { at: 0 }),
        (InitShape::Closure(vec![]), DeclError::WriteUntyped { at: 0 }),
        (
            InitShape::Closure(vec![
                ParamShape::Typed { ident: Some("a".to_string()) },
                ParamShape::Typed { ident: Some("b".to_string()) },
            ]),
            DeclError::WriteArity { at: 0 },
        ),
        (InitShape::Closure(vec![ParamShape::Untyped]), DeclError::WriteUntyped { at: 0 }),
        (
            InitShape::Closure(vec![ParamShape::Typed { ident: None }]),
            DeclError::WriteNotIdent { at: 0 },
        ),
    ];
    for (init, err) in cases {
        let d = declaration("x", true, vec![binding("write", init), StmtShape::Sentinel]);
        assert_eq!(d.validate().err(), Some(err));
    }
}

#[test]
fn planners_work_alone() {
    let d = declaration(
        "x",
        true,
        vec![binding("read", read_closure()), binding("write", write_closure("v")), StmtShape::Sentinel],
    );
    let desc = d.validate().unwrap();
    let dir = Some("/d".to_string());
    assert_eq!(plan_getter(&desc, &dir).unwrap().name, "x");
    assert_eq!(plan_setter(&desc, &dir).unwrap().name, "set_x");
    let e = generate(&desc, None, None);
    assert!(matches!(e.getter.unwrap().path, PathPlan::Ambient(f) if f == "x"));
}

#[test]
fn paths_join_with_slash() {
    assert_eq!(resolve_path("/sys/class/power_supply/AC", "online"), "/sys/class/power_supply/AC/online");
    assert_eq!(effective_dir(None, Some("/g".to_string())), Some("/g".to_string()));
    assert_eq!(effective_dir(Some("/a".to_string()), Some("/g".to_string())), Some("/a".to_string()));
    assert_eq!(effective_dir(None, None), None);
    let group = AttributeGroup::new("/sys/devices/system/cpu/cpu1/cpufreq");
    assert_eq!(group.dir(), "/sys/devices/system/cpu/cpu1/cpufreq");
    assert_eq!(group.path_of("scaling_max_freq"), "/sys/devices/system/cpu/cpu1/cpufreq/scaling_max_freq");
}

fn name_value(name: &str, value: ArgValue) -> MetaArg {
    MetaArg::NameValue { name: name.to_string(), value }
}

fn lit(s: &str) -> ArgValue {
    ArgValue::Str(s.to_string())
}

#[test]
fn directory_arguments() {
    assert_eq!(attr_dir(&DirArgs::Empty), Ok(None));
    assert_eq!(attr_dir(&DirArgs::In(lit("/x"))), Ok(Some("/x".to_string())));
    assert_eq!(attr_dir(&DirArgs::In(ArgValue::Other)), Err(ArgError::NotLiteral { at: 0 }));
    assert_eq!(
        attr_dir(&DirArgs::Metas(vec![name_value("sysfs_dir", lit("/y"))])),
        Ok(Some("/y".to_string()))
    );
    assert_eq!(
        attr_dir(&DirArgs::Metas(vec![
            name_value("sysfs_dir", lit("/y")),
            name_value("sysfs_dir", lit("/z")),
        ])),
        Ok(Some("/z".to_string()))
    );
    assert_eq!(
        attr_dir(&DirArgs::Metas(vec![
            name_value("sysfs_dir", lit("/y")),
            name_value("sysfs_dir", ArgValue::Other),
        ])),
        Err(ArgError::NotLiteral { at: 1 })
    );
    assert_eq!(
        attr_dir(&DirArgs::Metas(vec![name_value("dir", lit("/y"))])),
        Err(ArgError::UnknownArgument { at: 0 })
    );
    assert_eq!(
        attr_dir(&DirArgs::Metas(vec![name_value("sysfs_dir", lit("/y")), MetaArg::Other])),
        Err(ArgError::UnknownArgument { at: 1 })
    );
    assert_eq!(attr_dir(&DirArgs::Metas(vec![])), Err(ArgError::DirRequired));
    assert_eq!(require_literal(&lit("/q"), 3), Ok("/q".to_string()));
    assert_eq!(require_literal(&ArgValue::Other, 3), Err(ArgError::NotLiteral { at: 3 }));
}

#[test]
fn group_arguments() {
    assert_eq!(group_dir(&DirArgs::Empty), Err(ArgError::ArgumentsRequired));
    assert_eq!(group_dir(&DirArgs::In(lit("/x"))), Ok("/x".to_string()));
    assert_eq!(group_dir(&DirArgs::Metas(vec![])), Err(ArgError::DirRequired));
    assert_eq!(
        group_dir(&DirArgs::Metas(vec![name_value("sysfs_dir", lit("/w"))])),
        Ok("/w".to_string())
    );
}
