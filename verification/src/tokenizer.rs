//! Splitting an input line into a command name and arguments.
//!
//! The scan walks the line one character at a time with four pieces of
//! state: whether it is inside single quotes, whether it is inside double
//! quotes, whether a backslash escape is pending, and the token accumulated
//! so far. Single quotes protect every character; inside double quotes a
//! backslash escapes only `\`, `$`, `"`, and the newline; outside quotes a
//! backslash escapes the next character unconditionally; unquoted spaces
//! separate tokens.

use vstd::prelude::*;
use crate::strutil::push_char;

verus! {

/// One parsed input line: a command name and its arguments.
#[derive(Debug)]
pub struct Command {
    pub name: String,
    pub args: Vec<String>,
}

/// Scanner state: the two quote modes, the pending escape flag, the token
/// being accumulated, and the tokens already emitted.
pub ghost struct ScanState {
    pub in_single: bool,
    pub in_double: bool,
    pub escaped: bool,
    pub cur: Seq<char>,
    pub toks: Seq<Seq<char>>,
}

/// The state the scan starts from: no quoting, no escape, nothing read.
pub open spec fn scan_init() -> ScanState {
    ScanState {
        in_single: false,
        in_double: false,
        escaped: false,
        cur: Seq::empty(),
        toks: Seq::empty(),
    }
}

/// The characters a backslash escapes inside double quotes.
pub open spec fn is_dq_escapable(c: char) -> bool {
    c == '\\' || c == '$' || c == '"' || c == '\n'
}

/// One step of the scan: how reading `c` (with `next` the character after
/// it, if any) transforms the state. The cases are tried in order; the
/// first that applies decides.
pub open spec fn scan_step(st: ScanState, c: char, next: Option<char>) -> ScanState {
    if c == '\'' && !st.in_double && !st.escaped {
        // an unescaped single quote outside double quotes toggles the mode
        ScanState { in_single: !st.in_single, ..st }
    } else if st.in_single {
        // inside single quotes everything is literal
        ScanState { cur: st.cur.push(c), ..st }
    } else if c == '\\' && !st.escaped && st.in_double {
        // inside double quotes a backslash escapes only a few characters;
        // before anything else it stays literal, and with nothing after it
        // it vanishes
        match next {
            Some(n) => if is_dq_escapable(n) {
                ScanState { escaped: true, ..st }
            } else {
                ScanState { cur: st.cur.push('\\'), ..st }
            },
            None => st,
        }
    } else if c == '\\' && !st.escaped {
        // outside quotes a backslash escapes whatever follows
        ScanState { escaped: true, ..st }
    } else if st.escaped {
        // the escaped character is taken literally
        ScanState { escaped: false, cur: st.cur.push(c), ..st }
    } else if c == '"' && !st.in_single {
        ScanState { in_double: !st.in_double, ..st }
    } else if c == ' ' && !st.in_single && !st.in_double {
        // an unquoted space ends the current token; runs of spaces
        // produce no empty tokens
        if st.cur.len() > 0 {
            ScanState { toks: st.toks.push(st.cur), cur: Seq::empty(), ..st }
        } else {
            st
        }
    } else {
        ScanState { cur: st.cur.push(c), ..st }
    }
}

/// The scan carried from position `i` of `s` to the end of `s`.
pub open spec fn scan_from(s: Seq<char>, i: int, st: ScanState) -> ScanState
    decreases s.len() - i,
{
    if i < 0 || i >= s.len() {
        st
    } else {
        let next = if i + 1 < s.len() {
            Some(s[i + 1])
        } else {
            None
        };
        scan_from(s, i + 1, scan_step(st, s[i], next))
    }
}

/// After the scan a non-empty accumulator becomes the final token.
pub open spec fn scan_finish(st: ScanState) -> Seq<Seq<char>> {
    if st.cur.len() > 0 {
        st.toks.push(st.cur)
    } else {
        st.toks
    }
}

/// The token sequence the quoting and escaping scan yields for a line.
pub open spec fn tokens_of(s: Seq<char>) -> Seq<Seq<char>> {
    scan_finish(scan_from(s, 0, scan_init()))
}

/// The blank characters stripped from the end of an input line before it
/// is scanned: the space, tab, carriage-return, and newline characters.
pub open spec fn is_line_space(c: char) -> bool {
    c == ' ' || c == '\t' || c == '\r' || c == '\n'
}

/// The line with its trailing blanks (and line terminator) removed.
pub open spec fn trim_end_spec(s: Seq<char>) -> Seq<char>
    decreases s.len(),
{
    if s.len() > 0 && is_line_space(s[s.len() - 1]) {
        trim_end_spec(s.drop_last())
    } else {
        s
    }
}

/// The tokens of a raw input line: trailing blanks go, then the scan runs.
pub open spec fn line_tokens(input: Seq<char>) -> Seq<Seq<char>> {
    tokens_of(trim_end_spec(input))
}

/// The command name a raw line denotes: its first token, or the empty
/// string when the line has no token.
pub open spec fn command_name_of(input: Seq<char>) -> Seq<char> {
    let toks = line_tokens(input);
    if toks.len() == 0 {
        Seq::empty()
    } else {
        toks[0]
    }
}

/// The arguments a raw line denotes: every token after the first.
pub open spec fn command_args_of(input: Seq<char>) -> Seq<Seq<char>> {
    let toks = line_tokens(input);
    if toks.len() == 0 {
        Seq::empty()
    } else {
        toks.drop_first()
    }
}

proof fn lemma_scan_single_span(s: Seq<char>, i: int, j: int, st: ScanState)
    requires
        0 <= i <= j <= s.len(),
        st.in_single,
        !st.in_double,
        !st.escaped,
        forall|k: int| i <= k < j ==> s[k] != '\'',
    ensures
        scan_from(s, i, st) == scan_from(
            s,
            j,
            (ScanState { cur: st.cur + s.subrange(i, j), ..st }),
        ),
    decreases j - i,
{
    if i == j {
        assert(st.cur + s.subrange(i, j) =~= st.cur);
    } else {
        let next = if i + 1 < s.len() {
            Some(s[i + 1])
        } else {
            None
        };
        let st1 = scan_step(st, s[i], next);
        assert(st1 == (ScanState { cur: st.cur.push(s[i]), ..st }));
        lemma_scan_single_span(s, i + 1, j, st1);
        assert(st.cur.push(s[i]) + s.subrange(i + 1, j) =~= st.cur + s.subrange(i, j));
    }
}

/// A wholly single-quoted line yields exactly the quoted content as its
/// one token, embedded backslashes and double quotes included; quoting
/// nothing yields no token.
pub proof fn lemma_single_quoted_literal(content: Seq<char>)
    requires
        forall|k: int| 0 <= k < content.len() ==> content[k] != '\'',
    ensures
        tokens_of(seq!['\''] + content + seq!['\'']) == if content.len() == 0 {
            Seq::<Seq<char>>::empty()
        } else {
            seq![content]
        },
{
    let w = seq!['\''] + content + seq!['\''];
    let last = w.len() - 1;
    assert(w[0] == '\'');
    assert(w[last] == '\'');
    assert(forall|k: int| 1 <= k < last ==> w[k] == content[k - 1] && w[k] != '\'');
    let next0 = if 1 < w.len() {
        Some(w[1])
    } else {
        None
    };
    let st1 = scan_step(scan_init(), w[0], next0);
    assert(st1 == (ScanState { in_single: true, ..scan_init() }));
    assert(scan_from(w, 0, scan_init()) == scan_from(w, 1, st1));
    lemma_scan_single_span(w, 1, last, st1);
    let st2 = ScanState { cur: st1.cur + w.subrange(1, last), ..st1 };
    assert(st2.cur =~= content);
    let next_last = if last + 1 < w.len() {
        Some(w[last + 1])
    } else {
        None
    };
    let st3 = scan_step(st2, w[last], next_last);
    assert(st3 == (ScanState { in_single: false, ..st2 }));
    assert(scan_from(w, last, st2) == scan_from(w, w.len() as int, st3));
    assert(scan_from(w, w.len() as int, st3) == st3);
    if content.len() == 0 {
        assert(scan_finish(st3) =~= Seq::<Seq<char>>::empty());
    } else {
        assert(scan_finish(st3) =~= seq![content]);
    }
}

/// Inside double quotes an unescaped backslash removes itself before `\`,
/// `$`, `"`, or a newline, and stays literal before any other character:
/// scanning the two characters appends the escaped character alone in the
/// first case and both characters in the second, with the modes unchanged.
pub proof fn lemma_double_quote_escape(st: ScanState, c: char, after: Option<char>)
    requires
        st.in_double,
        !st.in_single,
        !st.escaped,
    ensures
        ({
            let st2 = scan_step(scan_step(st, '\\', Some(c)), c, after);
            if is_dq_escapable(c) {
                st2 == (ScanState { cur: st.cur.push(c), ..st })
            } else {
                st2 == (ScanState { cur: st.cur.push('\\').push(c), ..st })
            }
        }),
{
}

/// Whether `c` is one of the blanks trimmed from the end of a line.
fn is_line_space_char(c: char) -> (r: bool)
    ensures
        r == is_line_space(c),
{
    c == ' ' || c == '\t' || c == '\r' || c == '\n'
}

/// The slice with trailing blanks removed, as an owned string.
fn trim_line_end(s: &str) -> (r: String)
    ensures
        r@ == trim_end_spec(s@),
{
    let n = s.unicode_len();
    proof {
        assert(s@.take(n as int) =~= s@);
    }
    let mut j = n;
    while j > 0 && is_line_space_char(s.get_char(j - 1))
        invariant
            j <= n,
            n == s@.len(),
            trim_end_spec(s@) == trim_end_spec(s@.take(j as int)),
        decreases j,
    {
        proof {
            assert(s@.take(j as int).drop_last() =~= s@.take(j as int - 1));
        }
        j = j - 1;
    }
    proof {
        assert(s@.take(n as int) =~= s@);
        assert(trim_end_spec(s@.take(j as int)) == s@.take(j as int));
    }
    let r = s.substring_char(0, j);
    proof {
        assert(r@ =~= s@.take(j as int));
    }
    String::from_str(r)
}

impl Command {
    /// Tokenizes a line according to the quoting and escaping rules.
    pub fn parse_arguments(input: String) -> (tokens: Vec<String>)
        ensures
            tokens.deep_view() == tokens_of(input@),
    {
        let s = input.as_str();
        let n = s.unicode_len();
        let mut in_single = false;
        let mut in_double = false;
        let mut escaped = false;
        let mut cur = String::new();
        let mut toks: Vec<String> = Vec::new();
        proof {
            assert(toks.deep_view() =~= Seq::<Seq<char>>::empty());
            assert((ScanState {
                in_single,
                in_double,
                escaped,
                cur: cur@,
                toks: toks.deep_view(),
            }) == scan_init());
        }
        let mut i: usize = 0;
        while i < n
            invariant
                n == s@.len(),
                i <= n,
                scan_from(s@, 0, scan_init()) == scan_from(
                    s@,
                    i as int,
                    (ScanState {
                        in_single,
                        in_double,
                        escaped,
                        cur: cur@,
                        toks: toks.deep_view(),
                    }),
                ),
            decreases n - i,
        {
            let ghost st_pre = ScanState {
                in_single,
                in_double,
                escaped,
                cur: cur@,
                toks: toks.deep_view(),
            };
            let ghost next_g: Option<char> = if i + 1 < s@.len() {
                Some(s@[i as int + 1])
            } else {
                None
            };
            let c = s.get_char(i);
            if c == '\'' && !in_double && !escaped {
                in_single = !in_single;
            } else if in_single {
                push_char(&mut cur, c);
                proof {
                    assert(cur@ =~= st_pre.cur.push(c));
                }
            } else if c == '\\' && !escaped && in_double {
                if i + 1 < n {
                    let nx = s.get_char(i + 1);
                    if nx == '\\' || nx == '$' || nx == '"' || nx == '\n' {
                        escaped = true;
                    } else {
                        push_char(&mut cur, '\\');
                        proof {
                            assert(cur@ =~= st_pre.cur.push('\\'));
                        }
                    }
                }
            } else if c == '\\' && !escaped {
                escaped = true;
            } else if escaped {
                push_char(&mut cur, c);
                escaped = false;
                proof {
                    assert(cur@ =~= st_pre.cur.push(c));
                }
            } else if c == '"' && !in_single {
                in_double = !in_double;
            } else if c == ' ' && !in_single && !in_double {
                if !cur.as_str().is_empty() {
                    let ghost old_toks = toks;
                    toks.push(cur);
                    cur = String::new();
                    proof {
                        assert(toks.deep_view() =~= old_toks.deep_view().push(st_pre.cur));
                    }
                }
            } else {
                push_char(&mut cur, c);
                proof {
                    assert(cur@ =~= st_pre.cur.push(c));
                }
            }
            proof {
                let st_post = ScanState {
                    in_single,
                    in_double,
                    escaped,
                    cur: cur@,
                    toks: toks.deep_view(),
                };
                assert(st_post == scan_step(st_pre, s@[i as int], next_g));
            }
            i = i + 1;
        }
        if !cur.as_str().is_empty() {
            let ghost old_toks = toks;
            toks.push(cur);
            proof {
                assert(toks.deep_view() =~= scan_finish(scan_from(s@, 0, scan_init())));
            }
        } else {
            proof {
                assert(toks.deep_view() =~= scan_finish(scan_from(s@, 0, scan_init())));
            }
        }
        toks
    }

    /// Builds a command from a raw input line: trailing blanks are removed,
    /// the line is tokenized, and the first token (if any) becomes the
    /// name while the rest become the arguments.
    pub fn new(input: String) -> (c: Command)
        ensures
            c.name@ == command_name_of(input@),
            c.args.deep_view() == command_args_of(input@),
    {
        let trimmed = trim_line_end(input.as_str());
        let mut tokens = Self::parse_arguments(trimmed);
        if tokens.len() == 0 {
            let c = Command { name: String::new(), args: tokens };
            proof {
                assert(c.args.deep_view() =~= command_args_of(input@));
            }
            c
        } else {
            let ghost all = tokens.deep_view();
            let name = tokens.remove(0);
            let c = Command { name, args: tokens };
            proof {
                assert(c.args.deep_view() =~= all.drop_first());
            }
            c
        }
    }
}

} // verus!
