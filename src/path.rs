use vstd::prelude::*;

use vstd::string::StringExecFns;

verus! {

/// `<dir>/<file>`.
pub open spec fn joined(dir: Seq<char>, file: Seq<char>) -> Seq<char> {
    dir + seq!['/'] + file
}

/// The on-disk path of attribute `file` under directory `dir`.
pub fn resolve_path(dir: &str, file: &str) -> (r: String)
    ensures
        r@ == joined(dir@, file@),
{
    proof {
        reveal_strlit("/");
    }
    let mut r = String::from_str(dir);
    r.append("/");
    r.append(file);
    assert(r@ =~= joined(dir@, file@));
    r
}

/// The directory in force: the accessor's own, else the group's.
pub open spec fn pick_dir(accessor: Option<Seq<char>>, group: Option<Seq<char>>) -> Option<
    Seq<char>,
> {
    match accessor {
        Some(d) => Some(d),
        None => group,
    }
}

pub open spec fn opt_view(o: Option<String>) -> Option<Seq<char>> {
    match o {
        Some(s) => Some(s@),
        None => None,
    }
}

/// The directory in force for an accessor: its own override if it has one,
/// else the one given to its group, else none (the ambient one is used).
pub fn effective_dir(accessor: Option<String>, group: Option<String>) -> (r: Option<String>)
    ensures
        opt_view(r) == pick_dir(opt_view(accessor), opt_view(group)),
{
    match accessor {
        Some(d) => Some(d),
        None => group,
    }
}

/// Where an accessor's file lies, as far as it is known when the accessor is
/// generated.
pub enum PathPlan {
    /// The full path, known in advance.
    Fixed(String),
    /// A file under the ambient directory `SYSFS_DIR` of the calling scope.
    Ambient(String),
}

impl PathPlan {
    /// The path this plan names when the ambient directory is `ambient`.
    pub open spec fn resolves_to(&self, ambient: Seq<char>) -> Seq<char> {
        match self {
            PathPlan::Fixed(p) => p@,
            PathPlan::Ambient(file) => joined(ambient, file@),
        }
    }

    /// The plan for file `file` under `dir`, or under the ambient directory.
    pub fn for_file(dir: &Option<String>, file: &str) -> (r: PathPlan)
        ensures
            forall|ambient: Seq<char>|
                #[trigger] r.resolves_to(ambient) == joined(
                    match opt_view(*dir) {
                        Some(d) => d,
                        None => ambient,
                    },
                    file@,
                ),
            dir is Some <==> r is Fixed,
    {
        match dir {
            Some(d) => PathPlan::Fixed(resolve_path(d.as_str(), file)),
            None => PathPlan::Ambient(String::from_str(file)),
        }
    }

    /// The path this plan names when the ambient directory is `ambient`.
    pub fn resolve(&self, ambient: &str) -> (r: String)
        ensures
            r@ == self.resolves_to(ambient@),
    {
        match self {
            PathPlan::Fixed(p) => p.clone(),
            PathPlan::Ambient(file) => resolve_path(ambient, file.as_str()),
        }
    }
}

/// A set of sibling attributes that share one directory.
pub struct AttributeGroup {
    dir: String,
}

impl AttributeGroup {
    pub closed spec fn dir_view(&self) -> Seq<char> {
        self.dir@
    }

    pub fn new(dir: &str) -> (r: AttributeGroup)
        ensures
            r.dir_view() == dir@,
    {
        AttributeGroup { dir: String::from_str(dir) }
    }

    pub fn dir(&self) -> (r: &str)
        ensures
            r@ == self.dir_view(),
    {
        self.dir.as_str()
    }

    /// The path of attribute `name` of this group.
    pub fn path_of(&self, name: &str) -> (r: String)
        ensures
            r@ == joined(self.dir_view(), name@),
    {
        resolve_path(self.dir.as_str(), name)
    }
}

} // verus!
