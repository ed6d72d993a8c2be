//! The builtin commands: a closed, enumerable set of in-process handlers.
//!
//! A builtin receives the remaining argument tokens and the I/O context in
//! effect for its invocation; it may mutate the interpreter's directory
//! state. The set is fixed and small: `cd` and `which`. Only the decision
//! parts live here — what `cd` resolves its target to, and which single line
//! `which` prints; entering a directory and searching the path are operating
//! system work that the executor requests from its driver.

use vstd::prelude::*;
use vstd::string::StringExecFns;
use core::str::Chars;
use vstd::std_specs::iter::IteratorSpec;

verus! {

broadcast use vstd::string::group_string_axioms;

/// Relies on `core::str::Chars::as_str`: returns a slice of the original
/// string holding exactly the characters the iterator has not yet yielded.
pub assume_specification<'a>[ Chars::<'a>::as_str ](c: &Chars<'a>) -> (r: &'a str)
    ensures
        r@ == c.remaining(),
;

/// The registered builtin keywords.
pub open spec fn is_builtin_name(s: Seq<char>) -> bool {
    s == "cd"@ || s == "which"@
}

/// One registered builtin.
pub enum Builtin {
    Cd,
    Which,
}

/// The builtin registry: keyword to handler, `None` where the keyword names
/// no builtin.
pub fn lookup_builtin(s: &String) -> (r: Option<Builtin>)
    ensures
        r is Some <==> is_builtin_name(s@),
        r == Some(Builtin::Cd) <==> s@ == "cd"@,
        r == Some(Builtin::Which) <==> s@ == "which"@,
{
    proof {
        reveal_strlit("cd");
        reveal_strlit("which");
        assert("cd"@.len() == 2);
        assert("which"@.len() == 5);
    }
    if str_is(s, "cd") {
        Some(Builtin::Cd)
    } else if str_is(s, "which") {
        Some(Builtin::Which)
    } else {
        None
    }
}

/// Compare a string against a literal.
fn str_is(s: &String, lit: &str) -> (r: bool)
    ensures
        r == (s@ == lit@),
{
    *s == lit.to_owned()
}

/// How `cd` picks its target directory.
#[derive(Debug)]
pub enum CdOption {
    /// No option given: a literal path, or the home directory.
    Plain,
    /// `-L`: logical traversal (parsed and accepted; traversal itself is not
    /// implemented, the path is entered as given).
    Logical,
    /// `-P`: physical traversal (parsed and accepted, as with `-L`).
    Physical,
    /// `-`: return to the previous working directory.
    Back,
}

/// The `cd` builtin: changes the working directory, updating the `pwd` and
/// `oldpwd` bookkeeping, with `-` returning to the previous directory and a
/// leading `~` expanded to the home directory.
#[derive(Debug)]
pub struct Cd {
    pub option: CdOption,
    pub path: Option<String>,
}

/// What a successful parse of `cd`'s arguments holds.
pub open spec fn cd_build_ok(args: Seq<String>, c: Cd) -> bool {
    if args.len() == 0 {
        c.option is Plain && c.path is None
    } else if args.len() == 1 {
        if args[0]@ == "-"@ {
            c.option is Back && c.path is None
        } else if args[0]@ == "-L"@ {
            c.option is Logical && c.path is None
        } else if args[0]@ == "-P"@ {
            c.option is Physical && c.path is None
        } else {
            &&& c.option is Plain
            &&& c.path matches Some(p) && p@ == args[0]@
        }
    } else if args.len() == 2 {
        &&& (args[0]@ == "-L"@ ==> c.option is Logical)
        &&& (args[0]@ == "-P"@ ==> c.option is Physical)
        &&& c.path matches Some(p) && p@ == args[1]@
    } else {
        false
    }
}

/// Which argument lists `cd` accepts: at most one path, preceded by at most
/// one of `-`, `-L`, `-P` (a lone `-`, `-L` or `-P` counts as the option).
pub open spec fn cd_args_ok(args: Seq<String>) -> bool {
    ||| args.len() <= 1
    ||| (args.len() == 2 && (args[0]@ == "-L"@ || args[0]@ == "-P"@))
}

/// The diagnostic for a rejected `cd` argument list.
pub open spec fn cd_build_err(args: Seq<String>, e: Seq<char>) -> bool {
    if args.len() == 2 {
        e == "cd: bad argument: "@ + args[0]@
    } else {
        args.len() > 2 && e == "cd: too many arguments"@
    }
}

impl Cd {
    /// Parse `cd`'s argument tokens (the keyword itself excluded).
    pub fn build(args: &Vec<String>) -> (r: Result<Cd, String>)
        ensures
            r is Ok <==> cd_args_ok(args@),
            r matches Ok(c) ==> cd_build_ok(args@, c),
            r matches Err(e) ==> cd_build_err(args@, e@),
    {
        proof {
            reveal_strlit("-");
            reveal_strlit("-L");
            reveal_strlit("-P");
            assert("-"@.len() == 1);
            assert("-L"@[1] == 'L');
            assert("-P"@[1] == 'P');
        }
        if args.len() == 0 {
            Ok(Cd { option: CdOption::Plain, path: None })
        } else if args.len() == 1 {
            let a = &args[0];
            if str_is(a, "-") {
                Ok(Cd { option: CdOption::Back, path: None })
            } else if str_is(a, "-L") {
                Ok(Cd { option: CdOption::Logical, path: None })
            } else if str_is(a, "-P") {
                Ok(Cd { option: CdOption::Physical, path: None })
            } else {
                Ok(Cd { option: CdOption::Plain, path: Some(a.clone()) })
            }
        } else if args.len() == 2 {
            let a = &args[0];
            if str_is(a, "-L") {
                Ok(Cd { option: CdOption::Logical, path: Some(args[1].clone()) })
            } else if str_is(a, "-P") {
                Ok(Cd { option: CdOption::Physical, path: Some(args[1].clone()) })
            } else {
                Err("cd: bad argument: ".to_owned().concat(a.as_str()))
            }
        } else {
            Err("cd: too many arguments".to_owned())
        }
    }

    /// The directory `cd` will ask to enter: the previous directory for `-`,
    /// the home directory when no path was given, and otherwise the given
    /// path with a leading `~` expanded to the home directory.
    pub fn target(&self, home: &String, oldpwd: &String) -> (r: String)
        ensures
            r@ == cd_target_spec(self.option, opt_view(self.path), home@, oldpwd@),
    {
        match &self.path {
            None => match &self.option {
                CdOption::Back => oldpwd.clone(),
                _ => home.clone(),
            },
            Some(s) => tilde_expand(s, home),
        }
    }
}

/// The view of an optional string.
pub open spec fn opt_view(s: Option<String>) -> Option<Seq<char>> {
    match s {
        None => None,
        Some(p) => Some(p@),
    }
}

/// The target directory `cd` resolves to, before asking the operating system
/// to enter it.
pub open spec fn cd_target_spec(
    option: CdOption,
    path: Option<Seq<char>>,
    home: Seq<char>,
    oldpwd: Seq<char>,
) -> Seq<char> {
    match path {
        None => if option is Back {
            oldpwd
        } else {
            home
        },
        Some(s) => if s.len() > 0 && s[0] == '~' {
            home + s.skip(1)
        } else {
            s
        },
    }
}

/// Expand a leading `~` to the home directory; any other string is kept as
/// it is.
pub fn tilde_expand(s: &String, home: &String) -> (r: String)
    ensures
        r@ == (if s@.len() > 0 && s@[0] == '~' {
            home@ + s@.skip(1)
        } else {
            s@
        }),
{
    let mut it = s.as_str().chars();
    let first = it.next();
    match first {
        Some(c) => {
            if c == '~' {
                let rest = it.as_str();
                proof {
                    assert(s@.drop_first() =~= s@.skip(1));
                }
                home.clone().concat(rest)
            } else {
                s.clone()
            }
        },
        None => s.clone(),
    }
}

/// The `which` builtin: reports whether a keyword is a builtin, resolves to
/// a search-path hit, or is unresolved, writing exactly one line to its
/// output stream.
pub struct Which {
    pub keyword: String,
}

impl Which {
    /// Parse `which`'s argument tokens: the keyword queried is the first
    /// argument, or the empty string where none was given. Never rejects.
    pub fn build(args: &Vec<String>) -> (r: Result<Which, String>)
        ensures
            r is Ok,
            r matches Ok(w) ==> w.keyword@ == (if args@.len() > 0 {
                args@[0]@
            } else {
                Seq::<char>::empty()
            }),
    {
        proof {
            reveal_strlit("-");
            reveal_strlit("-L");
            reveal_strlit("-P");
            assert("-"@.len() == 1);
            assert("-L"@[1] == 'L');
            assert("-P"@[1] == 'P');
        }
        if args.len() == 0 {
            Ok(Which { keyword: String::new() })
        } else {
            Ok(Which { keyword: args[0].clone() })
        }
    }

    /// The single line `which` writes, given whether its keyword names a
    /// builtin and what the search path resolved it to.
    pub fn message(&self, builtin: bool, found: &Option<String>) -> (r: String)
        ensures
            r@ == which_message_spec(self.keyword@, builtin, opt_view(*found)),
    {
        if builtin {
            self.keyword.clone().concat(": shell builtin\n")
        } else {
            match found {
                Some(p) => p.clone().concat("\n"),
                None => self.keyword.clone().concat(" not found\n"),
            }
        }
    }
}

/// The line `which` reports: the builtin note for a registered keyword, the
/// resolved path for a search-path hit, and a not-found note otherwise.
pub open spec fn which_message_spec(
    keyword: Seq<char>,
    builtin: bool,
    found: Option<Seq<char>>,
) -> Seq<char> {
    if builtin {
        keyword + ": shell builtin\n"@
    } else {
        match found {
            Some(p) => p + "\n"@,
            None => keyword + " not found\n"@,
        }
    }
}

} // verus!
