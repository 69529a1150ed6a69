//! Shell-free descriptions of the firmware build and hardware commands.

use vstd::prelude::*;

use crate::resolve::string_views;

verus! {

/// A complete child-process description that can be inspected before it runs.
#[derive(Clone, Debug)]
pub struct CommandSpec {
    /// Executable name without shell interpretation.
    pub program: String,
    /// Ordered argument vector.
    pub args: Vec<String>,
    /// Child-process working directory.
    pub cwd: String,
    /// Explicit environment overrides; all other entries are inherited.
    pub env_overrides: Vec<(String, String)>,
}

/// Environment overrides as character-sequence pairs.
pub open spec fn env_views(v: Seq<(String, String)>) -> Seq<(Seq<char>, Seq<char>)> {
    v.map_values(|e: (String, String)| (e.0@, e.1@))
}

impl CommandSpec {
    /// An empty command in the given working directory.
    pub fn new(program: &str, cwd: &str) -> (r: Self)
        ensures
            r.program@ == program@,
            r.args@.len() == 0,
            r.cwd@ == cwd@,
            r.env_overrides@.len() == 0,
    {
        CommandSpec {
            program: String::from_str(program),
            args: Vec::new(),
            cwd: String::from_str(cwd),
            env_overrides: Vec::new(),
        }
    }

    /// Appends one literal argument.
    pub fn arg(self, argument: &str) -> (r: Self)
        ensures
            r.program@ == self.program@,
            string_views(r.args@) == string_views(self.args@).push(argument@),
            r.cwd@ == self.cwd@,
            env_views(r.env_overrides@) == env_views(self.env_overrides@),
    {
        let CommandSpec { program, mut args, cwd, env_overrides } = self;
        let ghost before = args@;
        args.push(String::from_str(argument));
        proof {
            assert(string_views(args@) =~= string_views(before).push(argument@));
        }
        CommandSpec { program, args, cwd, env_overrides }
    }

    /// Adds one explicit environment override.
    pub fn env(self, key: &str, value: &str) -> (r: Self)
        ensures
            r.program@ == self.program@,
            string_views(r.args@) == string_views(self.args@),
            r.cwd@ == self.cwd@,
            env_views(r.env_overrides@) == env_views(self.env_overrides@).push((key@, value@)),
    {
        let CommandSpec { program, args, cwd, mut env_overrides } = self;
        let ghost before = env_overrides@;
        env_overrides.push((String::from_str(key), String::from_str(value)));
        proof {
            assert(env_views(env_overrides@) =~= env_views(before).push((key@, value@)));
        }
        CommandSpec { program, args, cwd, env_overrides }
    }

    /// The executable followed by its arguments.
    pub fn argv(&self) -> (r: Vec<String>)
        ensures
            string_views(r@) == seq![self.program@] + string_views(self.args@),
    {
        let mut out: Vec<String> = Vec::new();
        out.push(self.program.clone());
        let mut k: usize = 0;
        while k < self.args.len()
            invariant
                k <= self.args@.len(),
                out@.len() == k + 1,
                out@[0]@ == self.program@,
                forall|j: int| 0 <= j < k ==> #[trigger] out@[j + 1]@ == self.args@[j]@,
            decreases self.args@.len() - k,
        {
            out.push(self.args[k].clone());
            k = k + 1;
        }
        proof {
            let rhs = seq![self.program@] + string_views(self.args@);
            assert forall|i: int| 0 <= i < out@.len() implies #[trigger] string_views(out@)[i] == rhs[i] by {
                if i > 0 {
                    assert(out@[(i - 1) + 1]@ == self.args@[i - 1]@);
                }
            }
            assert(string_views(out@) =~= rhs);
        }
        out
    }
}

/// `name` joined below directory `base`, as `Path::join` joins a relative name.
pub open spec fn path_join(base: Seq<char>, name: Seq<char>) -> Seq<char> {
    if base.len() == 0 {
        name
    } else if base.last() == '/' {
        base + name
    } else {
        base + "/"@ + name
    }
}

/// Joins a relative name below a directory.
pub fn join_path(base: &str, name: &str) -> (r: String)
    ensures
        r@ == path_join(base@, name@),
{
    let n = base.unicode_len();
    let mut out = String::from_str(base);
    if n == 0 {
        return String::from_str(name);
    }
    if base.get_char(n - 1) != '/' {
        out.append("/");
    }
    out.append(name);
    out
}

fn manifest_path(working: &str) -> (r: String)
    ensures
        r@ == path_join(working@, "Cargo.toml"@),
{
    join_path(working, "Cargo.toml")
}

/// `cargo fmt --check` for a generated crate.
pub fn cargo_fmt_check_command(working: &str, target_dir: &str) -> (r: CommandSpec)
    ensures
        r.program@ == "cargo"@,
        r.cwd@ == working@,
        string_views(r.args@) == seq![
            "fmt"@,
            "--manifest-path"@,
            path_join(working@, "Cargo.toml"@),
            "--"@,
            "--check"@,
        ],
        env_views(r.env_overrides@) == seq![("CARGO_TARGET_DIR"@, target_dir@)],
{
    let manifest = manifest_path(working);
    let r = CommandSpec::new("cargo", working).arg("fmt").arg("--manifest-path").arg(
        manifest.as_str(),
    ).arg("--").arg("--check").env("CARGO_TARGET_DIR", target_dir);
    proof {
        assert(string_views(r.args@) =~= seq![
            "fmt"@,
            "--manifest-path"@,
            path_join(working@, "Cargo.toml"@),
            "--"@,
            "--check"@,
        ]);
        assert(env_views(r.env_overrides@) =~= seq![("CARGO_TARGET_DIR"@, target_dir@)]);
    }
    r
}

/// Locked embedded `cargo check` for a generated crate.
pub fn cargo_check_command(working: &str, target: &str, target_dir: &str) -> (r: CommandSpec)
    ensures
        r.program@ == "cargo"@,
        r.cwd@ == working@,
        string_views(r.args@) == seq![
            "check"@,
            "--manifest-path"@,
            path_join(working@, "Cargo.toml"@),
            "--target"@,
            target@,
            "--locked"@,
        ],
        env_views(r.env_overrides@) == seq![("CARGO_TARGET_DIR"@, target_dir@)],
{
    let manifest = manifest_path(working);
    let r = CommandSpec::new("cargo", working).arg("check").arg("--manifest-path").arg(
        manifest.as_str(),
    ).arg("--target").arg(target).arg("--locked").env("CARGO_TARGET_DIR", target_dir);
    proof {
        assert(string_views(r.args@) =~= seq![
            "check"@,
            "--manifest-path"@,
            path_join(working@, "Cargo.toml"@),
            "--target"@,
            target@,
            "--locked"@,
        ]);
        assert(env_views(r.env_overrides@) =~= seq![("CARGO_TARGET_DIR"@, target_dir@)]);
    }
    r
}

/// Locked release build of a generated crate.
pub fn cargo_release_build_command(working: &str, target: &str, target_dir: &str) -> (r:
    CommandSpec)
    ensures
        r.program@ == "cargo"@,
        r.cwd@ == working@,
        string_views(r.args@) == seq![
            "build"@,
            "--manifest-path"@,
            path_join(working@, "Cargo.toml"@),
            "--target"@,
            target@,
            "--release"@,
            "--locked"@,
        ],
        env_views(r.env_overrides@) == seq![("CARGO_TARGET_DIR"@, target_dir@)],
{
    let manifest = manifest_path(working);
    let r = CommandSpec::new("cargo", working).arg("build").arg("--manifest-path").arg(
        manifest.as_str(),
    ).arg("--target").arg(target).arg("--release").arg("--locked").env(
        "CARGO_TARGET_DIR",
        target_dir,
    );
    proof {
        assert(string_views(r.args@) =~= seq![
            "build"@,
            "--manifest-path"@,
            path_join(working@, "Cargo.toml"@),
            "--target"@,
            target@,
            "--release"@,
            "--locked"@,
        ]);
        assert(env_views(r.env_overrides@) =~= seq![("CARGO_TARGET_DIR"@, target_dir@)]);
    }
    r
}

/// Explicit probe-rs flash of an existing ELF.
pub fn flash_command(builder_root: &str, chip: &str, binary: &str) -> (r: CommandSpec)
    ensures
        r.program@ == "probe-rs"@,
        r.cwd@ == builder_root@,
        string_views(r.args@) == seq![
            "download"@,
            "--chip"@,
            chip@,
            "--protocol"@,
            "swd"@,
            "--verify"@,
            "--reset"@,
            binary@,
        ],
        r.env_overrides@.len() == 0,
{
    let r = CommandSpec::new("probe-rs", builder_root).arg("download").arg("--chip").arg(chip).arg(
        "--protocol",
    ).arg("swd").arg("--verify").arg("--reset").arg(binary);
    proof {
        assert(string_views(r.args@) =~= seq![
            "download"@,
            "--chip"@,
            chip@,
            "--protocol"@,
            "swd"@,
            "--verify"@,
            "--reset"@,
            binary@,
        ]);
        assert(env_views(r.env_overrides@).len() == 0);
    }
    r
}

/// Explicit cargo-embed session for an existing ELF.
pub fn embed_command(builder_root: &str, chip: &str, binary: &str) -> (r: CommandSpec)
    ensures
        r.program@ == "cargo"@,
        r.cwd@ == builder_root@,
        string_views(r.args@) == seq!["embed"@, "--chip"@, chip@, "--path"@, binary@],
        r.env_overrides@.len() == 0,
{
    let r = CommandSpec::new("cargo", builder_root).arg("embed").arg("--chip").arg(chip).arg(
        "--path",
    ).arg(binary);
    proof {
        assert(string_views(r.args@) =~= seq!["embed"@, "--chip"@, chip@, "--path"@, binary@]);
        assert(env_views(r.env_overrides@).len() == 0);
    }
    r
}

} // verus!
