//! The resolved command value and the shared pieces of argument assembly.
//!
//! A resolved command is ephemeral: an ordered argument vector, an optional
//! toolchain selector kept logically separate from the arguments, and an
//! environment overlay applied on top of the inherited process environment.
//! The segment functions here say, token for token, what each optional
//! request field contributes to the argument vector; the per-tool argument
//! specifications are concatenations of these segments in a fixed order.

use vstd::prelude::*;
use vstd::string::StringExecFns;

verus! {

/// The views of an argument vector: each token as its character sequence.
pub open spec fn views_of(tokens: Seq<String>) -> Seq<Seq<char>> {
    tokens.map_values(|t: String| t@)
}

/// The views of an environment overlay: each pair as character sequences.
pub open spec fn env_views_of(pairs: Seq<(String, String)>) -> Seq<(Seq<char>, Seq<char>)> {
    pairs.map_values(|p: (String, String)| (p.0@, p.1@))
}

pub broadcast proof fn lemma_views_of_push(v: Seq<String>, s: String)
    ensures
        #[trigger] views_of(v.push(s)) == views_of(v).push(s@),
{
    assert(views_of(v.push(s)) =~= views_of(v).push(s@));
}

/// The token contributed by the compact-output flag: one `--quiet` token when
/// the flag is set to true, nothing when it is absent or false.
pub open spec fn quiet_segment(quiet: Option<bool>) -> Seq<Seq<char>> {
    if quiet == Some(true) {
        seq!["--quiet"@]
    } else {
        Seq::<Seq<char>>::empty()
    }
}

/// The two-token pair contributed by the package-scoping parameter.
pub open spec fn package_segment(package: Option<Seq<char>>) -> Seq<Seq<char>> {
    match package {
        Some(name) => seq!["--package"@, name],
        None => Seq::<Seq<char>>::empty(),
    }
}

/// The single positional token contributed by a name filter.
pub open spec fn filter_segment(name: Option<Seq<char>>) -> Seq<Seq<char>> {
    match name {
        Some(n) => seq![n],
        None => Seq::<Seq<char>>::empty(),
    }
}

/// The environment overlay a request contributes: its own pairs, or nothing.
pub open spec fn spec_env_overlay(env: Option<Seq<(Seq<char>, Seq<char>)>>) -> Seq<
    (Seq<char>, Seq<char>),
> {
    match env {
        Some(pairs) => pairs,
        None => Seq::<(Seq<char>, Seq<char>)>::empty(),
    }
}

/// An assembled invocation, produced fresh per request and never retained:
/// the ordered subcommand arguments, the resolved toolchain (if any), and the
/// environment overlay for the spawned process.
#[derive(Debug)]
pub struct ResolvedCommand {
    /// The resolved toolchain name, without the leading `+`; `None` means the
    /// build tool's own default toolchain.
    pub toolchain: Option<String>,
    /// The subcommand and its arguments, in order, starting with the
    /// subcommand name itself.
    pub argv: Vec<String>,
    /// Environment variables applied on top of the inherited environment;
    /// the overlay wins on key collision.
    pub env: Vec<(String, String)>,
}

impl ResolvedCommand {
    /// The full token list handed to the build tool binary: the `+<toolchain>`
    /// selector first when a toolchain was resolved, then the arguments.
    pub open spec fn spec_invocation_tokens(self) -> Seq<Seq<char>> {
        match self.toolchain {
            Some(t) => seq![seq!['+'] + t@] + views_of(self.argv@),
            None => views_of(self.argv@),
        }
    }

    /// Renders the invocation: the toolchain selector token (`+` followed by
    /// the toolchain name) leads when present; the arguments follow unchanged.
    pub fn invocation_tokens(&self) -> (r: Vec<String>)
        ensures
            views_of(r@) == self.spec_invocation_tokens(),
    {
        broadcast use lemma_views_of_push;

        let mut tokens: Vec<String> = Vec::new();
        if let Some(t) = &self.toolchain {
            tokens.push(String::from_str("+").concat(t.as_str()));
            proof {
                reveal_strlit("+");
                assert(("+"@ + t@) =~= (seq!['+'] + t@));
            }
        }
        let ghost selector = views_of(tokens@);
        let mut i: usize = 0;
        while i < self.argv.len()
            invariant
                0 <= i <= self.argv.len(),
                views_of(tokens@) == selector + views_of(self.argv@.take(i as int)),
            decreases self.argv.len() - i,
        {
            let ghost tpre = tokens@;
            let arg = self.argv[i].clone();
            proof {
                assert(arg == self.argv@[i as int]);
            }
            tokens.push(arg);
            proof {
                let ghost pre = self.argv@.take(i as int);
                let ghost elem = self.argv@[i as int];
                assert(views_of(tokens@) == views_of(tpre).push(elem@));
                assert(self.argv@.take(i + 1) =~= pre.push(elem));
                assert(views_of(pre.push(elem)) =~= views_of(pre).push(elem@));
                assert(views_of(tokens@) =~= selector + views_of(self.argv@.take(i + 1)));
            }
            i = i + 1;
        }
        proof {
            assert(self.argv@.take(self.argv@.len() as int) == self.argv@);
            assert(views_of(tokens@) =~= self.spec_invocation_tokens());
        }
        tokens
    }
}

} // verus!
