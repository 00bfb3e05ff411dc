//! Command-line arguments, parsed offline.
//!
//! `jear "brief..." [--monthly-cents N] [--live]` keeps the demo default
//! when no brief is given. Limits are client-controlled.
use vstd::prelude::*;
use vstd::string::*;
use crate::text::{parse_u64, parsed_u64};

verus! {

/// Parsed command-line config.
#[derive(Debug, Clone, PartialEq, Eq)]
pub struct Config {
    /// User brief in plain English.
    pub brief: String,
    /// Client-set monthly cap in cents.
    pub monthly_cents: u64,
    /// Run live calls when keys are present (else offline demo).
    pub live: bool,
}

/// The brief of the offline demo.
pub open spec fn demo_brief() -> Seq<char> {
    "Summarize my last 3 payout-failure emails"@
}

/// The monthly cap of the offline demo, in cents.
pub open spec fn demo_monthly() -> u64 {
    5_000
}

impl Config {
    /// Default offline demo config.
    pub fn demo() -> (c: Self)
        ensures
            c.brief@ == demo_brief(),
            c.monthly_cents == demo_monthly(),
            !c.live,
    {
        Config {
            brief: String::from_str("Summarize my last 3 payout-failure emails"),
            monthly_cents: 5_000,
            live: false,
        }
    }
}

/// Words joined by a separator.
pub open spec fn seq_join(words: Seq<Seq<char>>, sep: Seq<char>) -> Seq<char>
    decreases words.len(),
{
    if words.len() == 0 {
        Seq::empty()
    } else if words.len() == 1 {
        words[0]
    } else {
        seq_join(words.drop_last(), sep) + sep + words.last()
    }
}

/// An argument that starts with `--`.
pub open spec fn flag_like(s: Seq<char>) -> bool {
    s.len() >= 2 && s[0] == '-' && s[1] == '-'
}

/// The monthly cap after a `--monthly-cents` at position `i`: the next
/// argument when it parses as a positive `u64`, else the cap so far.
pub open spec fn monthly_after(args: Seq<Seq<char>>, i: int, monthly: u64) -> u64 {
    if i + 1 < args.len() {
        match parsed_u64(args[i + 1]) {
            Some(v) => if v > 0 {
                v
            } else {
                monthly
            },
            None => monthly,
        }
    } else {
        monthly
    }
}

/// Reads the arguments from position `i` on, carrying the monthly cap, the
/// live switch and the words of the brief found so far. `--monthly-cents`
/// takes the next argument as its value; `--live` switches live mode on;
/// any other argument starting with `--` is ignored; the rest are words.
pub open spec fn scan(
    args: Seq<Seq<char>>,
    i: int,
    monthly: u64,
    live: bool,
    words: Seq<Seq<char>>,
) -> (u64, bool, Seq<Seq<char>>)
    decreases args.len() + 1 - i,
{
    if i < 0 || i >= args.len() {
        (monthly, live, words)
    } else if args[i] == "--monthly-cents"@ {
        scan(args, i + 2, monthly_after(args, i, monthly), live, words)
    } else if args[i] == "--live"@ {
        scan(args, i + 1, monthly, true, words)
    } else if flag_like(args[i]) {
        scan(args, i + 1, monthly, live, words)
    } else {
        scan(args, i + 1, monthly, live, words.push(args[i]))
    }
}

/// The config that the arguments give (program name first).
pub open spec fn parsed_config(args: Seq<Seq<char>>) -> (u64, bool, Seq<char>) {
    let (monthly, live, words) = scan(args, 1, demo_monthly(), false, Seq::empty());
    (monthly, live, if words.len() == 0 {
        demo_brief()
    } else {
        seq_join(words, " "@)
    })
}

fn flag_prefix(s: &str) -> (r: bool)
    ensures
        r == flag_like(s@),
{
    s.unicode_len() >= 2 && s.get_char(0) == '-' && s.get_char(1) == '-'
}

/// Scanning keeps the monthly cap positive when it starts positive.
proof fn lemma_scan_keeps_cap_positive(
    args: Seq<Seq<char>>,
    i: int,
    monthly: u64,
    live: bool,
    words: Seq<Seq<char>>,
)
    requires
        monthly > 0,
    ensures
        scan(args, i, monthly, live, words).0 > 0,
    decreases args.len() + 1 - i,
{
    if i < 0 || i >= args.len() {
    } else if args[i] == "--monthly-cents"@ {
        lemma_scan_keeps_cap_positive(args, i + 2, monthly_after(args, i, monthly), live, words);
    } else if args[i] == "--live"@ {
        lemma_scan_keeps_cap_positive(args, i + 1, monthly, true, words);
    } else if flag_like(args[i]) {
        lemma_scan_keeps_cap_positive(args, i + 1, monthly, live, words);
    } else {
        lemma_scan_keeps_cap_positive(args, i + 1, monthly, live, words.push(args[i]));
    }
}

/// Parse `std::env::args()`-style args (program name first). Unknown flags
/// are ignored so future options stay compatible; the monthly cap is always
/// positive.
pub fn parse(args: &[String]) -> (c: Config)
    ensures
        ({
            let (monthly, live, brief) = parsed_config(args@.map_values(|s: String| s@));
            &&& c.monthly_cents == monthly
            &&& c.live == live
            &&& c.brief@ == brief
        }),
        c.monthly_cents > 0,
{
    let ghost a = args@.map_values(|s: String| s@);
    let n = args.len();
    let mut monthly: u64 = 5_000;
    let mut live = false;
    let mut brief = String::new();
    let mut count: usize = 0;
    let ghost mut words: Seq<Seq<char>> = Seq::empty();
    let monthly_flag = String::from_str("--monthly-cents");
    let live_flag = String::from_str("--live");
    let mut i: usize = 1;
    proof {
        lemma_scan_keeps_cap_positive(a, 1, 5_000, false, Seq::empty());
    }
    while i < n
        invariant
            n == args@.len(),
            a == args@.map_values(|s: String| s@),
            monthly_flag@ == "--monthly-cents"@,
            live_flag@ == "--live"@,
            1 <= i <= n + 1,
            monthly > 0,
            count == words.len(),
            count <= i,
            brief@ == seq_join(words, " "@),
            scan(a, 1, 5_000, false, Seq::empty()) == scan(a, i as int, monthly, live, words),
        decreases n + 1 - i,
    {
        assert(a[i as int] == args@[i as int]@);
        let ghost old_monthly = monthly;
        if args[i] == monthly_flag {
            if i + 1 < n {
                assert(a[i + 1] == args@[i + 1]@);
                match parse_u64(args[i + 1].as_str()) {
                    Some(v) => {
                        if v > 0 {
                            monthly = v;
                        }
                    },
                    None => {},
                }
                assert(scan(a, i as int, old_monthly, live, words) == scan(a, i + 2, monthly, live, words));
                i = i + 2;
            } else {
                assert(scan(a, i + 2, monthly, live, words) == (monthly, live, words));
                assert(scan(a, i as int, old_monthly, live, words) == scan(a, n as int, monthly, live, words));
                i = n;
            }
        } else if args[i] == live_flag {
            assert(scan(a, i as int, monthly, live, words) == scan(a, i + 1, monthly, true, words));
            live = true;
            i = i + 1;
        } else if flag_prefix(args[i].as_str()) {
            assert(scan(a, i as int, monthly, live, words) == scan(a, i + 1, monthly, live, words));
            i = i + 1;
        } else {
            if count > 0 {
                brief.append(" ");
            }
            brief.append(args[i].as_str());
            proof {
                let w2 = words.push(a[i as int]);
                assert(w2.drop_last() =~= words);
                if words.len() == 0 {
                    assert(brief@ =~= seq_join(w2, " "@));
                }
                words = w2;
            }
            count = count + 1;
            i = i + 1;
        }
    }
    if count == 0 {
        brief = String::from_str("Summarize my last 3 payout-failure emails");
    }
    Config { brief, monthly_cents: monthly, live }
}

/// Without arguments beyond the program name, parsing gives the demo.
pub proof fn law_no_arguments_is_demo(args: Seq<Seq<char>>)
    requires
        args.len() <= 1,
    ensures
        parsed_config(args) == (demo_monthly(), false, demo_brief()),
{
}

} // verus!

verus! {

/// Scanning from one position past a dropped argument reads the same as
/// scanning the list without it.
proof fn lemma_scan_shift(
    args: Seq<Seq<char>>,
    i: int,
    j: int,
    monthly: u64,
    live: bool,
    words: Seq<Seq<char>>,
)
    requires
        0 <= i <= j,
        i < args.len(),
    ensures
        scan(args, j + 1, monthly, live, words) == scan(args.remove(i), j, monthly, live, words),
    decreases args.len() - j,
{
    let b = args.remove(i);
    if j + 1 < args.len() {
        assert(b[j] == args[j + 1]);
        if j + 2 < args.len() {
            assert(b[j + 1] == args[j + 2]);
        }
        assert(monthly_after(args, j + 1, monthly) == monthly_after(b, j, monthly));
        if args[j + 1] == "--monthly-cents"@ {
            lemma_scan_shift(args, i, j + 2, monthly_after(args, j + 1, monthly), live, words);
        } else if args[j + 1] == "--live"@ {
            lemma_scan_shift(args, i, j + 1, monthly, true, words);
        } else if flag_like(args[j + 1]) {
            lemma_scan_shift(args, i, j + 1, monthly, live, words);
        } else {
            lemma_scan_shift(args, i, j + 1, monthly, live, words.push(args[j + 1]));
        }
    }
}

/// Once live mode is on it stays on; it changes neither the cap nor the words.
proof fn lemma_scan_live(args: Seq<Seq<char>>, i: int, monthly: u64, live: bool, words: Seq<Seq<char>>)
    ensures
        scan(args, i, monthly, true, words) == (
            scan(args, i, monthly, live, words).0,
            true,
            scan(args, i, monthly, live, words).2,
        ),
    decreases args.len() + 1 - i,
{
    if i < 0 || i >= args.len() {
    } else if args[i] == "--monthly-cents"@ {
        lemma_scan_live(args, i + 2, monthly_after(args, i, monthly), live, words);
    } else if args[i] == "--live"@ {
        lemma_scan_live(args, i + 1, monthly, true, words);
    } else if flag_like(args[i]) {
        lemma_scan_live(args, i + 1, monthly, live, words);
    } else {
        lemma_scan_live(args, i + 1, monthly, live, words.push(args[i]));
    }
}

/// `--live` consumes only itself: wherever the scan meets it, the result is
/// that of the arguments without it, with live mode on; in particular the
/// argument after it is read as it would have been.
pub proof fn law_live_flag_consumes_only_itself(
    args: Seq<Seq<char>>,
    i: int,
    monthly: u64,
    live: bool,
    words: Seq<Seq<char>>,
)
    requires
        0 <= i < args.len(),
        args[i] == "--live"@,
    ensures
        scan(args, i, monthly, live, words) == (
            scan(args.remove(i), i, monthly, live, words).0,
            true,
            scan(args.remove(i), i, monthly, live, words).2,
        ),
{
    reveal_strlit("--live");
    reveal_strlit("--monthly-cents");
    assert(args[i].len() != "--monthly-cents"@.len());
    lemma_scan_shift(args, i, i, monthly, true, words);
    lemma_scan_live(args.remove(i), i, monthly, live, words);
}

/// An argument that starts with `--` and is neither known flag changes
/// nothing, wherever the scan meets it.
pub proof fn law_unknown_flag_is_ignored(
    args: Seq<Seq<char>>,
    i: int,
    monthly: u64,
    live: bool,
    words: Seq<Seq<char>>,
)
    requires
        0 <= i < args.len(),
        flag_like(args[i]),
        args[i] != "--live"@,
        args[i] != "--monthly-cents"@,
    ensures
        scan(args, i, monthly, live, words) == scan(args.remove(i), i, monthly, live, words),
{
    lemma_scan_shift(args, i, i, monthly, live, words);
}

/// An argument that is not a flag, met by the scan, is the next word of the
/// brief, and the arguments after it are read as if it were not there.
pub proof fn law_word_is_next_brief_word(
    args: Seq<Seq<char>>,
    i: int,
    monthly: u64,
    live: bool,
    words: Seq<Seq<char>>,
)
    requires
        0 <= i < args.len(),
        !flag_like(args[i]),
    ensures
        scan(args, i, monthly, live, words) == scan(args.remove(i), i, monthly, live, words.push(args[i])),
{
    reveal_strlit("--live");
    reveal_strlit("--monthly-cents");
    assert(args[i] != "--live"@);
    assert(args[i] != "--monthly-cents"@);
    lemma_scan_shift(args, i, i, monthly, live, words.push(args[i]));
}

} // verus!
