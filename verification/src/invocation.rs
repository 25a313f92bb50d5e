//! The argument list of a compiler run.
//!
//! The caller's flags come first, in the caller's order, each followed by
//! its value where it has one. A fixed tail follows: the edition selector
//! with the edition's token, the output selector with the artifact path, and
//! the primary source as the only input.

use crate::edition::RustEdition;
use vstd::prelude::*;
use vstd::string::StringExecFns;

verus! {

/// One compiler run: the flags chosen by the caller and the fixed tail.
#[derive(Debug, PartialEq, Eq)]
pub struct CompilerInvocation {
    /// Extra flags, each with its value where it has one.
    pub flags: Vec<(String, Option<String>)>,
    /// The edition to compile for.
    pub edition: RustEdition,
    /// Where the compiled artifact is written.
    pub output: String,
    /// The primary source, the only file handed to the compiler.
    pub input: String,
}

/// A compiler run as plain values.
pub struct CompilerInvocationView {
    pub flags: Seq<(Seq<char>, Option<Seq<char>>)>,
    pub edition: RustEdition,
    pub output: Seq<char>,
    pub input: Seq<char>,
}

impl View for CompilerInvocation {
    type V = CompilerInvocationView;

    open spec fn view(&self) -> CompilerInvocationView {
        CompilerInvocationView {
            flags: self.flags.deep_view(),
            edition: self.edition,
            output: self.output@,
            input: self.input@,
        }
    }
}

impl CompilerInvocationView {
    /// The argument list that the run hands to the compiler.
    pub open spec fn args(self) -> Seq<Seq<char>> {
        compile_args(self.flags, self.edition, self.output, self.input)
    }
}

/// The name under which the toolchain's compiler is started.
pub open spec fn spec_toolchain() -> Seq<char> {
    "rustc"@
}

/// The tokens of one flag: the flag, then its value where it has one.
pub open spec fn flag_tokens(flag: (Seq<char>, Option<Seq<char>>)) -> Seq<Seq<char>> {
    match flag.1 {
        Some(value) => seq![flag.0, value],
        None => seq![flag.0],
    }
}

/// The tokens of all flags, in the order of the flags.
pub open spec fn flags_tokens(flags: Seq<(Seq<char>, Option<Seq<char>>)>) -> Seq<Seq<char>> {
    flags.map_values(|flag: (Seq<char>, Option<Seq<char>>)| flag_tokens(flag)).flatten()
}

/// A flag that is added at the end contributes its tokens at the end.
pub proof fn flags_tokens_push(
    flags: Seq<(Seq<char>, Option<Seq<char>>)>,
    flag: (Seq<char>, Option<Seq<char>>),
)
    ensures
        flags_tokens(flags.push(flag)) == flags_tokens(flags) + flag_tokens(flag),
{
    let tokens = |flag: (Seq<char>, Option<Seq<char>>)| flag_tokens(flag);
    assert(flags.push(flag).map_values(tokens) =~= flags.map_values(tokens).push(flag_tokens(flag)));
    flags.map_values(tokens).lemma_flatten_push(flag_tokens(flag));
}

/// The complete argument list of a compiler run.
pub open spec fn compile_args(
    flags: Seq<(Seq<char>, Option<Seq<char>>)>,
    edition: RustEdition,
    output: Seq<char>,
    input: Seq<char>,
) -> Seq<Seq<char>> {
    flags_tokens(flags) + seq!["--edition"@, edition.token(), "-o"@, output, input]
}

/// The name under which the toolchain's compiler is started.
pub fn toolchain() -> (name: &'static str)
    ensures
        name@ == spec_toolchain(),
{
    "rustc"
}

/// Appends a copy of `token` to `args`.
fn push_token(args: &mut Vec<String>, token: &str)
    ensures
        final(args).deep_view() == old(args).deep_view().push(token@),
{
    args.push(String::from_str(token));
    assert(args.deep_view() =~= old(args).deep_view().push(token@));
}

impl CompilerInvocation {
    /// Assembles the argument list.
    pub fn args(&self) -> (args: Vec<String>)
        ensures
            args.deep_view() == self@.args(),
    {
        let ghost flags = self.flags.deep_view();
        let mut args: Vec<String> = Vec::new();
        let mut i: usize = 0;
        assert(args.deep_view() =~= flags_tokens(flags.take(0)));
        while i < self.flags.len()
            invariant
                i <= self.flags.len(),
                flags == self.flags.deep_view(),
                args.deep_view() == flags_tokens(flags.take(i as int)),
            decreases self.flags.len() - i,
        {
            proof {
                assert(flags.take(i + 1) =~= flags.take(i as int).push(flags[i as int]));
                flags_tokens_push(flags.take(i as int), flags[i as int]);
            }
            let ghost before = args.deep_view();
            push_token(&mut args, self.flags[i].0.as_str());
            if let Some(value) = &self.flags[i].1 {
                push_token(&mut args, value.as_str());
            }
            assert(args.deep_view() =~= before + flag_tokens(flags[i as int]));
            i += 1;
        }
        assert(flags.take(i as int) =~= flags);
        let ghost head = args.deep_view();
        push_token(&mut args, "--edition");
        push_token(&mut args, self.edition.as_str());
        push_token(&mut args, "-o");
        push_token(&mut args, self.output.as_str());
        push_token(&mut args, self.input.as_str());
        assert(args.deep_view() =~= head + seq![
            "--edition"@,
            self.edition.token(),
            "-o"@,
            self.output@,
            self.input@,
        ]);
        args
    }
}

} // verus!
