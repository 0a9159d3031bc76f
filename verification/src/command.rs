//! The command parser: a raw query string becomes exactly one `Command`.
//!
//! A query is split on every single space character; the empty string yields
//! no tokens at all, while consecutive spaces yield empty tokens, which
//! change the token count and so route the query to `Unknown`.

use vstd::prelude::*;

verus! {

/// Mathematical value of a parsed command.
pub enum SpecCommand {
    /// No tokens were given.
    Usage,
    /// The balance verb came without an address.
    BalanceMissingArg,
    /// Request the current network gas price.
    GasPrice,
    /// Request the balance of the given (still unvalidated) address token.
    Balance(Seq<char>),
    /// Anything else; `tokens` is how many tokens the query had.
    Unknown { tokens: nat },
}

/// A parsed command; parsing is total, every raw query yields exactly one.
#[derive(Debug, Clone, PartialEq, Eq)]
pub enum Command {
    /// No tokens were given.
    Usage,
    /// The balance verb came without an address.
    BalanceMissingArg,
    /// Request the current network gas price.
    GasPrice,
    /// Request the balance of the given (still unvalidated) address token.
    Balance(String),
    /// Anything else; `tokens` is how many tokens the query had.
    Unknown { tokens: usize },
}

impl View for Command {
    type V = SpecCommand;

    open spec fn view(&self) -> SpecCommand {
        match self {
            Command::Usage => SpecCommand::Usage,
            Command::BalanceMissingArg => SpecCommand::BalanceMissingArg,
            Command::GasPrice => SpecCommand::GasPrice,
            Command::Balance(addr) => SpecCommand::Balance(addr@),
            Command::Unknown { tokens } => SpecCommand::Unknown { tokens: *tokens as nat },
        }
    }
}

/// Splitting on every single space character, so that `n` spaces always
/// yield `n + 1` (possibly empty) pieces.
pub open spec fn spec_split(s: Seq<char>) -> Seq<Seq<char>>
    decreases s.len(),
{
    if s.len() == 0 {
        seq![Seq::<char>::empty()]
    } else if s[0] == ' ' {
        seq![Seq::<char>::empty()] + spec_split(s.drop_first())
    } else {
        let rest = spec_split(s.drop_first());
        seq![seq![s[0]] + rest[0]] + rest.drop_first()
    }
}

/// The tokens of a raw query: the empty query has none, any other query
/// is split on single spaces.
pub open spec fn spec_tokens(s: Seq<char>) -> Seq<Seq<char>> {
    if s.len() == 0 {
        Seq::empty()
    } else {
        spec_split(s)
    }
}

proof fn lemma_split_nonempty(s: Seq<char>)
    ensures
        spec_split(s).len() >= 1,
    decreases s.len(),
{
    if s.len() != 0 {
        lemma_split_nonempty(s.drop_first());
    }
}

proof fn lemma_split_no_space(s: Seq<char>)
    requires
        forall|j: int| 0 <= j < s.len() ==> s[j] != ' ',
    ensures
        spec_split(s) == seq![s],
    decreases s.len(),
{
    if s.len() == 0 {
        assert(Seq::<char>::empty() =~= s);
    } else {
        let d = s.drop_first();
        assert(forall|j: int| 0 <= j < d.len() ==> d[j] != ' ');
        lemma_split_no_space(d);
        assert(seq![s[0]] + d =~= s);
        assert(seq![d].drop_first() =~= Seq::<Seq<char>>::empty());
        assert(seq![seq![s[0]] + d] + seq![d].drop_first() =~= seq![s]);
    }
}

proof fn lemma_split_at_space(s: Seq<char>, k: int)
    requires
        0 <= k < s.len(),
        s[k] == ' ',
        forall|j: int| 0 <= j < k ==> s[j] != ' ',
    ensures
        spec_split(s) == seq![s.take(k)] + spec_split(s.skip(k + 1)),
    decreases k,
{
    if k == 0 {
        assert(s.take(0) =~= Seq::<char>::empty());
        assert(s.drop_first() =~= s.skip(1));
    } else {
        let d = s.drop_first();
        assert(forall|j: int| 0 <= j < k - 1 ==> d[j] != ' ');
        assert(d[k - 1] == ' ');
        lemma_split_at_space(d, k - 1);
        lemma_split_nonempty(d.skip(k));
        assert(seq![s[0]] + d.take(k - 1) =~= s.take(k));
        assert(d.skip(k) =~= s.skip(k + 1));
        let rest = seq![d.take(k - 1)] + spec_split(d.skip(k));
        assert(rest[0] == d.take(k - 1));
        assert(rest.drop_first() =~= spec_split(d.skip(k)));
        assert(seq![seq![s[0]] + rest[0]] + rest.drop_first() =~= seq![s.take(k)] + spec_split(
            s.skip(k + 1),
        ));
    }
}

/// Split a raw query on single spaces; the empty string yields no tokens.
pub fn tokenize(s: &str) -> (r: Vec<String>)
    ensures
        r@.map_values(|t: String| t@) == spec_tokens(s@),
{
    let n = s.unicode_len();
    let mut r: Vec<String> = Vec::new();
    if n == 0 {
        assert(r@.map_values(|t: String| t@) =~= spec_tokens(s@));
        return r;
    }
    let mut start: usize = 0;
    let mut i: usize = 0;
    proof {
        assert(s@.skip(0) =~= s@);
        assert(r@.map_values(|t: String| t@) + spec_split(s@) =~= spec_split(s@));
    }
    while i < n
        invariant
            n == s@.len(),
            0 < n,
            start <= i <= n,
            forall|j: int| start <= j < i ==> s@[j] != ' ',
            spec_split(s@) == r@.map_values(|t: String| t@) + spec_split(s@.skip(start as int)),
        decreases n - i,
    {
        if s.get_char(i) == ' ' {
            let tok = String::from_str(s.substring_char(start, i));
            proof {
                let suffix = s@.skip(start as int);
                assert(suffix[i - start] == ' ');
                assert forall|j: int| 0 <= j < i - start implies suffix[j] != ' ' by {
                    assert(suffix[j] == s@[start + j]);
                }
                lemma_split_at_space(suffix, i - start);
                assert(suffix.take(i - start) =~= tok@);
                assert(suffix.skip(i - start + 1) =~= s@.skip(i + 1));
                assert(r@.push(tok).map_values(|t: String| t@) =~= r@.map_values(
                    |t: String| t@,
                ).push(tok@));
                assert(r@.map_values(|t: String| t@) + (seq![tok@] + spec_split(s@.skip(i + 1)))
                    =~= r@.map_values(|t: String| t@).push(tok@) + spec_split(s@.skip(i + 1)));
            }
            r.push(tok);
            start = i + 1;
        }
        i += 1;
    }
    let tok = String::from_str(s.substring_char(start, n));
    proof {
        let suffix = s@.skip(start as int);
        assert forall|j: int| 0 <= j < suffix.len() implies suffix[j] != ' ' by {
            assert(suffix[j] == s@[start + j]);
        }
        lemma_split_no_space(suffix);
        assert(suffix =~= tok@);
        assert(r@.push(tok).map_values(|t: String| t@) =~= r@.map_values(|t: String| t@).push(
            tok@,
        ));
        assert(r@.map_values(|t: String| t@) + seq![tok@] =~= r@.map_values(
            |t: String| t@,
        ).push(tok@));
    }
    r.push(tok);
    r
}

/// What `parse` returns for every raw query: exactly one command variant,
/// chosen by token count and first token.
pub open spec fn spec_parse(s: Seq<char>) -> SpecCommand {
    let toks = spec_tokens(s);
    if toks.len() == 0 {
        SpecCommand::Usage
    } else if toks.len() == 1 {
        if toks[0] == "balance"@ {
            SpecCommand::BalanceMissingArg
        } else if toks[0] == "gas"@ {
            SpecCommand::GasPrice
        } else {
            SpecCommand::Unknown { tokens: 1 }
        }
    } else if toks.len() == 2 {
        if toks[0] == "balance"@ {
            SpecCommand::Balance(toks[1])
        } else {
            SpecCommand::Unknown { tokens: 2 }
        }
    } else {
        SpecCommand::Unknown { tokens: toks.len() }
    }
}

/// Totality law: every raw query parses to exactly one command variant, and
/// which one is decided by the token count and the first token alone. The
/// first four variants each have their exact condition; `Unknown` covers
/// precisely the remaining queries and records their token count.
pub proof fn lemma_parse_exactly_one(s: Seq<char>)
    ensures
        spec_parse(s) is Usage <==> spec_tokens(s).len() == 0,
        spec_parse(s) is BalanceMissingArg <==> (spec_tokens(s).len() == 1 && spec_tokens(s)[0]
            == "balance"@),
        spec_parse(s) is GasPrice <==> (spec_tokens(s).len() == 1 && spec_tokens(s)[0] == "gas"@),
        spec_parse(s) is Balance <==> (spec_tokens(s).len() == 2 && spec_tokens(s)[0]
            == "balance"@),
        spec_parse(s) is Unknown <==> !(spec_parse(s) is Usage || spec_parse(s)
            is BalanceMissingArg || spec_parse(s) is GasPrice || spec_parse(s) is Balance),
        spec_parse(s) matches SpecCommand::Unknown { tokens } ==> tokens == spec_tokens(s).len(),
{
    reveal_strlit("balance");
    reveal_strlit("gas");
    assert("balance"@.len() == 7);
    assert("gas"@.len() == 3);
}

/// Turn a raw query into its command. Parsing is total: it never fails and
/// always yields exactly one variant.
pub fn parse(s: &str) -> (c: Command)
    ensures
        c@ == spec_parse(s@),
{
    let toks = tokenize(s);
    let ghost spec_toks = spec_tokens(s@);
    assert(toks@.len() == spec_toks.len());
    if toks.len() == 0 {
        Command::Usage
    } else if toks.len() == 1 {
        assert(toks@[0]@ == spec_toks[0]);
        if toks[0] == String::from_str("balance") {
            Command::BalanceMissingArg
        } else if toks[0] == String::from_str("gas") {
            Command::GasPrice
        } else {
            Command::Unknown { tokens: 1 }
        }
    } else if toks.len() == 2 {
        assert(toks@[0]@ == spec_toks[0]);
        assert(toks@[1]@ == spec_toks[1]);
        if toks[0] == String::from_str("balance") {
            Command::Balance(toks[1].clone())
        } else {
            Command::Unknown { tokens: 2 }
        }
    } else {
        Command::Unknown { tokens: toks.len() }
    }
}

} // verus!
