use vstd::prelude::*;

use vstd::string::StringExecFns;

verus! {

/// The value given to an argument: a string literal, or any other expression.
pub enum ArgValue {
    Str(String),
    Other,
}

/// One `name = value` argument, or an argument of any other form.
pub enum MetaArg {
    NameValue { name: String, value: ArgValue },
    Other,
}

/// The arguments of a declaration: none, `in "<dir>"`, or a list of
/// `name = value` arguments.
pub enum DirArgs {
    Empty,
    In(ArgValue),
    Metas(Vec<MetaArg>),
}

/// Why the arguments were refused. `at` is the position of the offending
/// argument.
#[derive(Debug, Clone, Copy, PartialEq, Eq, Structural)]
pub enum ArgError {
    /// The directory was not given as a string literal.
    NotLiteral { at: usize },
    /// An argument other than `sysfs_dir = ...`.
    UnknownArgument { at: usize },
    /// A list of arguments that does not name `sysfs_dir`.
    DirRequired,
    /// No arguments where a directory must be given.
    ArgumentsRequired,
}

/// The name of the directory argument.
pub open spec fn dir_key() -> Seq<char> {
    seq!['s', 'y', 's', 'f', 's', '_', 'd', 'i', 'r']
}

/// The literal held by an argument value, or the error for position `at`.
pub open spec fn literal_of(v: ArgValue, at: int) -> Result<Seq<char>, ArgError> {
    match v {
        ArgValue::Str(s) => Ok(s@),
        ArgValue::Other => Err(ArgError::NotLiteral { at: at as usize }),
    }
}

/// The directory named by the first `n` arguments of a list, read in order:
/// the first bad argument is the error, and the last `sysfs_dir` wins.
pub open spec fn metas_dir(metas: Seq<MetaArg>, n: int) -> Result<Option<Seq<char>>, ArgError>
    decreases n,
{
    if n <= 0 {
        Ok(None)
    } else {
        match metas_dir(metas, n - 1) {
            Err(e) => Err(e),
            Ok(prev) => match metas[n - 1] {
                MetaArg::NameValue { name, value } => if name@ == dir_key() {
                    match literal_of(value, n - 1) {
                        Ok(s) => Ok(Some(s)),
                        Err(e) => Err(e),
                    }
                } else {
                    Err(ArgError::UnknownArgument { at: (n - 1) as usize })
                },
                MetaArg::Other => Err(ArgError::UnknownArgument { at: (n - 1) as usize }),
            },
        }
    }
}

/// The directory given to one declaration: none when there are no arguments.
pub open spec fn attr_dir_spec(args: DirArgs) -> Result<Option<Seq<char>>, ArgError> {
    match args {
        DirArgs::Empty => Ok(None),
        DirArgs::In(v) => match literal_of(v, 0) {
            Ok(s) => Ok(Some(s)),
            Err(e) => Err(e),
        },
        DirArgs::Metas(ms) => match metas_dir(ms@, ms@.len() as int) {
            Err(e) => Err(e),
            Ok(None) => Err(ArgError::DirRequired),
            Ok(Some(d)) => Ok(Some(d)),
        },
    }
}

/// The directory given to a group: arguments are required.
pub open spec fn group_dir_spec(args: DirArgs) -> Result<Seq<char>, ArgError> {
    match args {
        DirArgs::Empty => Err(ArgError::ArgumentsRequired),
        _ => match attr_dir_spec(args) {
            Ok(Some(d)) => Ok(d),
            Ok(None) => Err(ArgError::DirRequired),
            Err(e) => Err(e),
        },
    }
}

pub open spec fn dir_view(r: Result<Option<String>, ArgError>) -> Result<Option<Seq<char>>, ArgError> {
    match r {
        Ok(Some(s)) => Ok(Some(s@)),
        Ok(None) => Ok(None),
        Err(e) => Err(e),
    }
}

proof fn lemma_metas_error_stays(metas: Seq<MetaArg>, i: int, j: int)
    requires
        0 <= i <= j,
        metas_dir(metas, i) is Err,
    ensures
        metas_dir(metas, j) == metas_dir(metas, i),
    decreases j - i,
{
    if j > i {
        lemma_metas_error_stays(metas, i, j - 1);
    }
}

fn is_dir_key(name: &String) -> (r: bool)
    ensures
        r == (name@ == dir_key()),
{
    proof {
        reveal_strlit("sysfs_dir");
    }
    let key = String::from_str("sysfs_dir");
    assert(key@ =~= dir_key());
    *name == key
}

/// The literal held by an argument value at position `at`.
pub fn require_literal(v: &ArgValue, at: usize) -> (r: Result<String, ArgError>)
    ensures
        match literal_of(*v, at as int) {
            Ok(s) => r is Ok && r->Ok_0@ == s,
            Err(e) => r == Err::<String, ArgError>(e),
        },
{
    match v {
        ArgValue::Str(s) => Ok(s.clone()),
        ArgValue::Other => Err(ArgError::NotLiteral { at }),
    }
}

fn dir_from_metas(metas: &Vec<MetaArg>) -> (r: Result<Option<String>, ArgError>)
    ensures
        dir_view(r) == metas_dir(metas@, metas@.len() as int),
{
    let mut dir: Option<String> = None;
    let mut i: usize = 0;
    while i < metas.len()
        invariant
            i <= metas@.len(),
            metas_dir(metas@, i as int) == dir_view(Ok(dir)),
        decreases metas@.len() - i,
    {
        match &metas[i] {
            MetaArg::NameValue { name, value } => {
                if is_dir_key(name) {
                    match require_literal(value, i) {
                        Ok(s) => {
                            dir = Some(s);
                        },
                        Err(e) => {
                            proof {
                                lemma_metas_error_stays(metas@, i + 1, metas@.len() as int);
                            }
                            return Err(e);
                        },
                    }
                } else {
                    proof {
                        lemma_metas_error_stays(metas@, i + 1, metas@.len() as int);
                    }
                    return Err(ArgError::UnknownArgument { at: i });
                }
            },
            MetaArg::Other => {
                proof {
                    lemma_metas_error_stays(metas@, i + 1, metas@.len() as int);
                }
                return Err(ArgError::UnknownArgument { at: i });
            },
        }
        i = i + 1;
    }
    Ok(dir)
}

/// The directory given to one declaration, if any.
pub fn attr_dir(args: &DirArgs) -> (r: Result<Option<String>, ArgError>)
    ensures
        dir_view(r) == attr_dir_spec(*args),
{
    match args {
        DirArgs::Empty => Ok(None),
        DirArgs::In(v) => match require_literal(v, 0) {
            Ok(s) => Ok(Some(s)),
            Err(e) => Err(e),
        },
        DirArgs::Metas(ms) => match dir_from_metas(ms) {
            Err(e) => Err(e),
            Ok(None) => Err(ArgError::DirRequired),
            Ok(Some(d)) => Ok(Some(d)),
        },
    }
}

/// The directory given to a group of declarations.
pub fn group_dir(args: &DirArgs) -> (r: Result<String, ArgError>)
    ensures
        match group_dir_spec(*args) {
            Ok(d) => r is Ok && r->Ok_0@ == d,
            Err(e) => r == Err::<String, ArgError>(e),
        },
{
    match args {
        DirArgs::Empty => Err(ArgError::ArgumentsRequired),
        _ => match attr_dir(args) {
            Ok(Some(d)) => Ok(d),
            Ok(None) => Err(ArgError::DirRequired),
            Err(e) => Err(e),
        },
    }
}

} // verus!
