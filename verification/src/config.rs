use vstd::prelude::*;

verus! {

/// Distance the mouse must travel before an arrow key is sent, and number of
/// further movement events before that key starts repeating.
#[derive(Clone, Copy, PartialEq, Eq, Structural, Debug)]
pub struct Config {
    pub move_limit: i32,
    pub hold_time: i32,
}

/// The value of `move_limit` in the shipped configuration.
pub const DEFAULT_MOVE_LIMIT: i32 = 40;

/// The value of `hold_time` in the shipped configuration.
pub const DEFAULT_HOLD_TIME: i32 = 45;

impl Config {
    /// The shipped configuration: `move_limit = 40`, `hold_time = 45`.
    pub fn default() -> (c: Self)
        ensures
            c.move_limit == 40,
            c.hold_time == 45,
    {
        Config { move_limit: DEFAULT_MOVE_LIMIT, hold_time: DEFAULT_HOLD_TIME }
    }

    pub fn move_limit(&self) -> (r: i32)
        ensures
            r == self.move_limit,
    {
        self.move_limit
    }

    pub fn hold_time(&self) -> (r: i32)
        ensures
            r == self.hold_time,
    {
        self.hold_time
    }

    /// Where the configuration file lives: `config.toml` in `exe_dir`, the
    /// folder that holds the `mousekey` executable.
    pub fn path(exe_dir: &str) -> (p: String)
        ensures
            p@ == config_path_spec(exe_dir@),
            p@.take(exe_dir@.len() as int) == exe_dir@,
            (exe_dir@.len() > 0 && exe_dir@.last() != '/') ==> p@[exe_dir@.len() as int] == '/',
    {
        proof {
            law_join_separates(exe_dir@, "config.toml"@);
        }
        join_path(String::from_str(exe_dir), "config.toml")
    }
}

/// Appending the relative path `part` to `base`: a separator goes between
/// them unless `base` is empty or already ends in one.
pub open spec fn path_join(base: Seq<char>, part: Seq<char>) -> Seq<char> {
    if base.len() == 0 || base.last() == '/' {
        base + part
    } else {
        base + seq!['/'] + part
    }
}

/// The configuration file in the folder `exe_dir` of the executable.
pub open spec fn config_path_spec(exe_dir: Seq<char>) -> Seq<char> {
    path_join(exe_dir, "config.toml"@)
}

/// Appends the relative path `part` to `base`, as `PathBuf::join` does.
pub fn join_path(base: String, part: &str) -> (r: String)
    ensures
        r@ == path_join(base@, part@),
        r@.take(base@.len() as int) == base@,
        r@.skip(r@.len() - part@.len()) == part@,
        (base@.len() > 0 && base@.last() != '/') ==> r@.len() == base@.len() + 1 + part@.len()
            && r@[base@.len() as int] == '/',
        (base@.len() == 0 || base@.last() == '/') ==> r@.len() == base@.len() + part@.len(),
{
    let n = base.as_str().unicode_len();
    let mut r = base;
    if n > 0 {
        let last = r.as_str().get_char(n - 1);
        if last != '/' {
            r.append("/");
            proof {
                reveal_strlit("/");
            }
        }
    }
    r.append(part);
    r
}

/// Joining keeps the folder as it is and puts the part at the end; between
/// them stands exactly one separator `/` when the folder is not empty and
/// does not already end in one, and nothing otherwise, whatever the lengths.
pub proof fn law_join_separates(base: Seq<char>, part: Seq<char>)
    ensures
        ({
            let r = path_join(base, part);
            &&& r.take(base.len() as int) == base
            &&& r.skip(r.len() - part.len()) == part
            &&& (base.len() > 0 && base.last() != '/') ==> {
                &&& r.len() == base.len() + 1 + part.len()
                &&& r[base.len() as int] == '/'
            }
            &&& (base.len() == 0 || base.last() == '/') ==> r.len() == base.len() + part.len()
        }),
{
    let r = path_join(base, part);
    if base.len() > 0 && base.last() != '/' {
        assert(r.take(base.len() as int) =~= base);
        assert(r.skip(r.len() - part.len()) =~= part);
    } else {
        assert(r.take(base.len() as int) =~= base);
        assert(r.skip(r.len() - part.len()) =~= part);
    }
}

/// The configuration file lies directly in the executable's folder: its path
/// is the folder, one `/` (unless the folder is empty or already ends in
/// one), and `config.toml`.
pub proof fn law_config_next_to_executable(exe_dir: Seq<char>)
    ensures
        ({
            let p = config_path_spec(exe_dir);
            &&& p.take(exe_dir.len() as int) == exe_dir
            &&& p.skip(p.len() - 11) == seq!['c', 'o', 'n', 'f', 'i', 'g', '.', 't', 'o', 'm', 'l']
            &&& (exe_dir.len() > 0 && exe_dir.last() != '/') ==> {
                &&& p.len() == exe_dir.len() + 12
                &&& p[exe_dir.len() as int] == '/'
            }
            &&& (exe_dir.len() == 0 || exe_dir.last() == '/') ==> p.len() == exe_dir.len() + 11
        }),
{
    reveal_strlit("config.toml");
    law_join_separates(exe_dir, "config.toml"@);
    let p = config_path_spec(exe_dir);
    assert("config.toml"@ =~= seq!['c', 'o', 'n', 'f', 'i', 'g', '.', 't', 'o', 'm', 'l']);
}

} // verus!
