use vstd::prelude::*;

use crate::decl::{
    decl_fault, describes, ends_with_sentinel, init_of, kept, read_of, write_of, write_param_spec, DeclError,
    Declaration, Descriptor,
};
use crate::path::{joined, opt_view, pick_dir, PathPlan};
use vstd::string::StringExecFns;

verus! {

/// What to emit for a getter.
pub struct GetterPlan {
    /// The getter's name: the declaration's own.
    pub name: String,
    pub path: PathPlan,
    /// Position of the `read` binding to replay.
    pub read_at: usize,
    /// Positions of the prologue statements to replay, in order.
    pub prologue: Vec<usize>,
}

/// What to emit for a setter.
pub struct SetterPlan {
    /// The setter's name: `set_` and the declaration's name.
    pub name: String,
    /// The parameter added for the new value.
    pub value_param: String,
    pub path: PathPlan,
    /// Position of the `write` binding to replay.
    pub write_at: usize,
    /// Positions of the prologue statements to replay, in order.
    pub prologue: Vec<usize>,
}

/// The accessors a declaration gives.
pub struct Expansion {
    pub getter: Option<GetterPlan>,
    pub setter: Option<SetterPlan>,
}

pub open spec fn setter_name(name: Seq<char>) -> Seq<char> {
    seq!['s', 'e', 't', '_'] + name
}

/// The directory used: the one given, else the ambient one.
pub open spec fn dir_or(dir: Option<Seq<char>>, ambient: Seq<char>) -> Seq<char> {
    match dir {
        Some(d) => d,
        None => ambient,
    }
}

/// `p` names file `file` under `dir`, or under the ambient directory if no
/// directory is given.
pub open spec fn targets(p: PathPlan, dir: Option<Seq<char>>, file: Seq<char>) -> bool {
    &&& dir is Some <==> p is Fixed
    &&& forall|ambient: Seq<char>| #[trigger]
        p.resolves_to(ambient) == joined(dir_or(dir, ambient), file)
}

pub open spec fn getter_of(g: GetterPlan, name: Seq<char>, read_at: usize, prologue: Seq<usize>, dir: Option<Seq<char>>) -> bool {
    &&& g.name@ == name
    &&& targets(g.path, dir, name)
    &&& g.read_at == read_at
    &&& g.prologue@ == prologue
}

pub open spec fn setter_of(
    s: SetterPlan,
    name: Seq<char>,
    write_at: usize,
    param: Seq<char>,
    prologue: Seq<usize>,
    dir: Option<Seq<char>>,
) -> bool {
    &&& s.name@ == setter_name(name)
    &&& s.value_param@ == param
    &&& targets(s.path, dir, name)
    &&& s.write_at == write_at
    &&& s.prologue@ == prologue
}

/// `e` is what descriptor `desc` gives with directory `dir`.
pub open spec fn expansion_of_desc(e: Expansion, desc: Descriptor, dir: Option<Seq<char>>) -> bool {
    &&& e.getter is Some <==> (desc.read_at is Some && desc.has_return_type)
    &&& e.getter is Some ==> getter_of(
        e.getter->Some_0,
        desc.name@,
        desc.read_at->Some_0,
        desc.prologue@,
        dir,
    )
    &&& e.setter is Some <==> desc.write is Some
    &&& e.setter is Some ==> setter_of(
        e.setter->Some_0,
        desc.name@,
        desc.write->Some_0.at,
        desc.write->Some_0.param@,
        desc.prologue@,
        dir,
    )
}

/// `e` is what the valid declaration `d` gives with directory `dir`: a getter
/// exactly when it binds `read`, a setter exactly when it binds `write`.
pub open spec fn expansion_of(e: Expansion, d: Declaration, dir: Option<Seq<char>>) -> bool {
    let n = d.body@.len() - 1;
    let prologue = kept(n, read_of(d), write_of(d));
    &&& e.getter is Some <==> read_of(d) is Some
    &&& e.getter is Some ==> getter_of(e.getter->Some_0, d.name@, read_of(d)->Some_0, prologue, dir)
    &&& e.setter is Some <==> write_of(d) is Some
    &&& e.setter is Some ==> setter_of(
        e.setter->Some_0,
        d.name@,
        write_of(d)->Some_0,
        write_param_spec(init_of(d.body@[write_of(d)->Some_0 as int]), write_of(d)->Some_0)->Ok_0,
        prologue,
        dir,
    )
}

fn path_plan(dir: &Option<String>, file: &String) -> (r: PathPlan)
    ensures
        targets(r, opt_view(*dir), file@),
{
    let r = PathPlan::for_file(dir, file.as_str());
    assert forall|ambient: Seq<char>| #[trigger]
        r.resolves_to(ambient) == joined(dir_or(opt_view(*dir), ambient), file@) by {
        assert(r.resolves_to(ambient) == joined(
            match opt_view(*dir) {
                Some(d) => d,
                None => ambient,
            },
            file@,
        ));
    }
    r
}

/// The getter of a descriptor: there is one when it binds `read` and has a
/// return type.
pub fn plan_getter(desc: &Descriptor, dir: &Option<String>) -> (r: Option<GetterPlan>)
    ensures
        r is Some <==> (desc.read_at is Some && desc.has_return_type),
        r is Some ==> getter_of(
            r->Some_0,
            desc.name@,
            desc.read_at->Some_0,
            desc.prologue@,
            opt_view(*dir),
        ),
{
    match desc.read_at {
        Some(read_at) => {
            if desc.has_return_type {
                Some(
                    GetterPlan {
                        name: desc.name.clone(),
                        path: path_plan(dir, &desc.name),
                        read_at,
                        prologue: desc.prologue.clone(),
                    },
                )
            } else {
                None
            }
        },
        None => None,
    }
}

/// The setter of a descriptor: there is one when it binds `write`. It is
/// named `set_<name>` and writes the file of the base name.
pub fn plan_setter(desc: &Descriptor, dir: &Option<String>) -> (r: Option<SetterPlan>)
    ensures
        r is Some <==> desc.write is Some,
        r is Some ==> setter_of(
            r->Some_0,
            desc.name@,
            desc.write->Some_0.at,
            desc.write->Some_0.param@,
            desc.prologue@,
            opt_view(*dir),
        ),
{
    match &desc.write {
        Some(w) => {
            proof {
                reveal_strlit("set_");
            }
            let mut name = String::from_str("set_");
            name.append(desc.name.as_str());
            assert(name@ =~= setter_name(desc.name@));
            Some(
                SetterPlan {
                    name,
                    value_param: w.param.clone(),
                    path: path_plan(dir, &desc.name),
                    write_at: w.at,
                    prologue: desc.prologue.clone(),
                },
            )
        },
        None => None,
    }
}

/// The accessors of a descriptor, each planned on its own, under the
/// accessor's directory if it has one, else the group's.
pub fn generate(desc: &Descriptor, accessor_dir: Option<String>, group_dir: Option<String>) -> (r:
    Expansion)
    ensures
        expansion_of_desc(r, *desc, pick_dir(opt_view(accessor_dir), opt_view(group_dir))),
{
    let dir = crate::path::effective_dir(accessor_dir, group_dir);
    let getter = plan_getter(desc, &dir);
    let setter = plan_setter(desc, &dir);
    Expansion { getter, setter }
}

/// Validates a declaration and plans its accessors.
pub fn expand(d: &Declaration, accessor_dir: Option<String>, group_dir: Option<String>) -> (r:
    Result<Expansion, DeclError>)
    ensures
        r is Err <==> decl_fault(*d) is Some,
        r is Err ==> r->Err_0 == decl_fault(*d)->Some_0,
        r is Ok ==> expansion_of(r->Ok_0, *d, pick_dir(opt_view(accessor_dir), opt_view(group_dir))),
{
    match d.validate() {
        Ok(desc) => {
            let e = generate(&desc, accessor_dir, group_dir);
            assert(describes(desc, *d));
            Ok(e)
        },
        Err(err) => Err(err),
    }
}

/// Getter and setter of one declaration read and write the same file:
/// `<directory>/<name>`, where the directory is the one given, else the
/// ambient one.
pub proof fn lemma_accessors_share_path(
    e: Expansion,
    d: Declaration,
    dir: Option<Seq<char>>,
    ambient: Seq<char>,
)
    requires
        expansion_of(e, d, dir),
    ensures
        e.getter is Some ==> e.getter->Some_0.path.resolves_to(ambient) == joined(
            dir_or(dir, ambient),
            d.name@,
        ),
        e.setter is Some ==> e.setter->Some_0.path.resolves_to(ambient) == joined(
            dir_or(dir, ambient),
            d.name@,
        ),
        e.getter is Some && e.setter is Some ==> e.getter->Some_0.path.resolves_to(ambient)
            == e.setter->Some_0.path.resolves_to(ambient),
{
    if e.getter is Some {
        assert(e.getter->Some_0.path.resolves_to(ambient) == joined(dir_or(dir, ambient), d.name@));
    }
    if e.setter is Some {
        assert(e.setter->Some_0.path.resolves_to(ambient) == joined(dir_or(dir, ambient), d.name@));
    }
}

/// A declaration with only a `read` transform gives no setter, and one with
/// only a `write` transform gives no getter.
pub proof fn lemma_one_transform_one_accessor(e: Expansion, d: Declaration, dir: Option<Seq<char>>)
    requires
        expansion_of(e, d, dir),
    ensures
        read_of(d) is Some && write_of(d) is None ==> e.getter is Some && e.setter is None,
        read_of(d) is None && write_of(d) is Some ==> e.getter is None && e.setter is Some,
{
}

/// A declaration that ends with the sentinel and has neither transform is
/// accepted, and gives no accessor.
pub proof fn lemma_no_transform_no_accessor(e: Expansion, d: Declaration, dir: Option<Seq<char>>)
    requires
        ends_with_sentinel(d.body@),
        read_of(d) is None,
        write_of(d) is None,
    ensures
        decl_fault(d) is None,
        expansion_of(e, d, dir) ==> e.getter is None && e.setter is None,
{
}

} // verus!
