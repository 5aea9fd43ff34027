//! A builder for `ffprobe` command lines.

use vstd::prelude::*;

verus! {

/// An `ffprobe` invocation under construction: the target program, the
/// ordered argument tokens appended so far, and whether a visible console
/// window is to be suppressed when the process is launched (relevant on
/// Windows-family systems only; elsewhere the flag is inert).
///
/// Arguments are kept exactly in append order, without validation or
/// deduplication: order is caller-significant, as a flag token is usually
/// followed by its value token.  Launching is the caller's business; the
/// fields are public so that an unverified shell can hand them to the OS.
pub struct FfprobeCommand {
    /// Path or bare name of the program to launch.
    pub program: String,
    /// Argument tokens, in append order.
    pub args: Vec<String>,
    /// Whether to ask the OS not to open a console window for the child.
    pub no_window: bool,
}

impl FfprobeCommand {
    /// The argument tokens appended so far, in order, as character sequences.
    pub open spec fn args_spec(&self) -> Seq<Seq<char>> {
        self.args.deep_view()
    }

    /// A builder for the given program with no arguments yet.  Console
    /// window suppression is always requested, as every launch this library
    /// is built for wants it.
    pub fn new(program: String) -> (r: FfprobeCommand)
        ensures
            r.program@ == program@,
            r.args_spec() == Seq::<Seq<char>>::empty(),
            r.no_window,
    {
        let r = FfprobeCommand { program, args: Vec::new(), no_window: true };
        proof {
            assert(r.args_spec() =~= Seq::<Seq<char>>::empty());
        }
        r
    }

    /// Appends one argument token, verbatim.
    pub fn arg(&mut self, token: &str)
        ensures
            final(self).program@ == old(self).program@,
            final(self).no_window == old(self).no_window,
            final(self).args_spec() == old(self).args_spec().push(token@),
    {
        self.args.push(token.to_owned());
        proof {
            assert(self.args_spec() =~= old(self).args_spec().push(token@));
        }
    }

    /// Appends many argument tokens, verbatim and in order.
    pub fn args(&mut self, tokens: &Vec<String>)
        ensures
            final(self).program@ == old(self).program@,
            final(self).no_window == old(self).no_window,
            final(self).args_spec() == old(self).args_spec() + tokens.deep_view(),
    {
        let n = tokens.len();
        let mut k: usize = 0;
        while k < n
            invariant
                k <= n,
                n == tokens.len(),
                self.program@ == old(self).program@,
                self.no_window == old(self).no_window,
                self.args_spec() == old(self).args_spec() + tokens.deep_view().subrange(
                    0,
                    k as int,
                ),
            decreases n - k,
        {
            self.arg(tokens[k].as_str());
            k = k + 1;
            proof {
                assert(self.args_spec() =~= old(self).args_spec() + tokens.deep_view().subrange(
                    0,
                    k as int,
                ));
            }
        }
        proof {
            assert(tokens.deep_view().subrange(0, n as int) =~= tokens.deep_view());
        }
    }

    /// Appends the fixed token that suppresses the `ffprobe` banner (the
    /// copyright notice, build options and library versions the tool would
    /// otherwise print).
    pub fn hide_banner(&mut self)
        ensures
            final(self).program@ == old(self).program@,
            final(self).no_window == old(self).no_window,
            final(self).args_spec() == old(self).args_spec().push("-hide_banner"@),
    {
        self.arg("-hide_banner");
    }

    /// Appends the fixed output-format flag token followed by the caller's
    /// writer name, in that order.
    pub fn print_format(&mut self, format: &str)
        ensures
            final(self).program@ == old(self).program@,
            final(self).no_window == old(self).no_window,
            final(self).args_spec() == old(self).args_spec().push("-print_format"@).push(format@),
    {
        self.arg("-print_format");
        self.arg(format);
    }
}

} // verus!
