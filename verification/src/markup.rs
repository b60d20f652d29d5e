//! How deeply the elements of an XML text are nested.
//!
//! The readers of feeds descend once for every element that is open, so a
//! text is measured before it is handed to them. The measure follows the
//! text as the `quick-xml` tokenizer does: a tag ends at the first `>`
//! outside quotes, a comment at the first `-->`, a CDATA section at the
//! first `]]>`, a processing instruction at the first `?>`, and a document
//! type declaration where its own scan ends it. Where a text leaves these
//! forms it is no XML, and no reader reads on; the measure then stops
//! trusting end tags and counts every `<` that can open an element, so it
//! is never below the depth that a reader reaches.

use vstd::prelude::*;
use crate::text::{chars_of, has_prefix, starts_with_at};

verus! {

/// The deepest nesting of a text that is handed to a reader.
pub const MAX_NESTING: usize = 256;

/// Where the scan of a tag stands with regard to quotes.
#[derive(Debug, Clone, Copy, PartialEq, Eq, Structural)]
pub enum Quote {
    Outside,
    Single,
    Double,
}

/// Where the scan of a document type declaration stands.
#[derive(Debug, Clone, Copy, PartialEq, Eq, Structural)]
pub enum Dtd {
    /// Before the internal subset, outside quotes.
    Before,
    /// Before the internal subset, inside a literal that this quote ends.
    Quoted(char),
    /// Inside the internal subset, between its declarations.
    Inside,
    /// After the internal subset.
    After,
}

/// The state of the scan: the place in the text, how many elements are
/// open, the most that were, and whether end tags are still trusted.
pub struct Scan {
    pub at: int,
    pub depth: nat,
    pub best: nat,
    pub trusted: bool,
}

/// The place of the `>` that ends the tag scanned from `at` on, `quote`
/// being the state of the quotes there; the length where the tag does not
/// end.
pub open spec fn tag_end(s: Seq<char>, at: int, quote: Quote) -> int
    decreases s.len() - at,
{
    if at < 0 || at >= s.len() {
        s.len() as int
    } else if quote == Quote::Outside && s[at] == '>' {
        at
    } else {
        tag_end(s, at + 1, after_quote(quote, s[at]))
    }
}

/// The state of the quotes after the character `c` of a tag.
pub open spec fn after_quote(quote: Quote, c: char) -> Quote {
    match quote {
        Quote::Outside => if c == '\'' {
            Quote::Single
        } else if c == '"' {
            Quote::Double
        } else {
            Quote::Outside
        },
        Quote::Single => if c == '\'' {
            Quote::Outside
        } else {
            Quote::Single
        },
        Quote::Double => if c == '"' {
            Quote::Outside
        } else {
            Quote::Double
        },
    }
}

/// The first place from `at` on that holds `>` after `mark`; the length
/// where there is none.
pub open spec fn end_after(s: Seq<char>, at: int, mark: Seq<char>) -> int
    decreases s.len() - at,
{
    if at < 0 || at >= s.len() {
        s.len() as int
    } else if s[at] == '>' && mark.len() <= at && s.subrange(at - mark.len(), at) == mark {
        at
    } else {
        end_after(s, at + 1, mark)
    }
}

/// Where the scan of an internal subset goes on after the markup that
/// begins with the `<` at `at`.
///
/// - A processing instruction ends at the first `?>` after its `<?`.
/// - A comment ends at the first `-->` after its `<!--`.
/// - An element declaration ends at the first `>`.
/// - An entity, attribute list or notation declaration ends at the first
///   `>` outside quotes.
/// - Any other markup ends at the first `>`.
pub open spec fn markup_end(s: Seq<char>, at: int) -> int {
    let rest = s.skip(at + 1);
    if has_prefix(rest, "?"@) {
        end_after(s, at + 3, seq!['?'])
    } else if has_prefix(rest, "!--"@) {
        end_after(s, at + 6, seq!['-', '-']) + 1
    } else if has_prefix(rest, "!ELEMENT"@) {
        end_after(s, at + 9, Seq::empty()) + 1
    } else if has_prefix(rest, "!ENTITY"@) {
        tag_end(s, at + 8, Quote::Outside)
    } else if has_prefix(rest, "!ATTLIST"@) {
        tag_end(s, at + 9, Quote::Outside)
    } else if has_prefix(rest, "!NOTATION"@) {
        tag_end(s, at + 10, Quote::Outside)
    } else {
        end_after(s, at + 1, Seq::empty()) + 1
    }
}

/// The place of the `>` that ends the document type declaration scanned
/// from `at` on in the state `state`; the length where it does not end.
///
/// Before the internal subset a quote opens a literal that the same quote
/// ends, `[` opens the subset and `>` ends the declaration. In the subset
/// `]` ends it and `<` begins markup that is passed over whole. After the
/// subset the first `>` ends the declaration.
pub open spec fn dtd_end(s: Seq<char>, at: int, state: Dtd) -> int
    decreases s.len() - at,
{
    if at < 0 || at >= s.len() {
        s.len() as int
    } else {
        let c = s[at];
        match state {
            Dtd::Before => if c == '>' {
                at
            } else if c == '\'' || c == '"' {
                dtd_end(s, at + 1, Dtd::Quoted(c))
            } else if c == '[' {
                dtd_end(s, at + 1, Dtd::Inside)
            } else {
                dtd_end(s, at + 1, Dtd::Before)
            },
            Dtd::Quoted(quote) => if c == quote {
                dtd_end(s, at + 1, Dtd::Before)
            } else {
                dtd_end(s, at + 1, state)
            },
            Dtd::Inside => if c == ']' {
                dtd_end(s, at + 1, Dtd::After)
            } else if c == '<' {
                let next = markup_end(s, at);
                if at < next <= s.len() {
                    dtd_end(s, next, Dtd::Inside)
                } else {
                    s.len() as int
                }
            } else {
                dtd_end(s, at + 1, Dtd::Inside)
            },
            Dtd::After => if c == '>' {
                at
            } else {
                dtd_end(s, at + 1, Dtd::After)
            },
        }
    }
}

/// Whether the character after a `<` can begin an element.
pub open spec fn opens(c: char) -> bool {
    c != '/' && c != '!' && c != '?'
}

/// `depth` and one more, as the most that were open.
pub open spec fn deeper(st: Scan) -> nat {
    if st.depth + 1 > st.best {
        st.depth + 1
    } else {
        st.best
    }
}

/// One step of the scan, from a place within the text.
///
/// - A character that is no `<` is passed over.
/// - An end tag closes one element.
/// - A processing instruction, a comment, a CDATA section and a document
///   type declaration are passed over whole.
/// - A tag opens one element, and closes it at once if it ends in `/>`.
/// - Any other markup that begins with `<!` is no XML, and ends the trust
///   in end tags.
/// - Without that trust every `<` that can begin an element opens one,
///   and nothing closes any.
pub open spec fn step(s: Seq<char>, st: Scan) -> Scan {
    let at = st.at;
    if s[at] != '<' || at + 1 >= s.len() {
        Scan { at: at + 1, ..st }
    } else if !st.trusted {
        if opens(s[at + 1]) {
            Scan { at: at + 1, depth: st.depth + 1, best: deeper(st), trusted: false }
        } else {
            Scan { at: at + 1, ..st }
        }
    } else if s[at + 1] == '/' {
        Scan {
            at: tag_end(s, at + 1, Quote::Outside) + 1,
            depth: if st.depth > 0 {
                (st.depth - 1) as nat
            } else {
                0
            },
            ..st
        }
    } else if s[at + 1] == '?' {
        Scan { at: end_after(s, at + 2, seq!['?']) + 1, ..st }
    } else if s[at + 1] == '!' {
        if has_prefix(s.skip(at + 2), "--"@) {
            Scan { at: end_after(s, at + 6, seq!['-', '-']) + 1, ..st }
        } else if has_prefix(s.skip(at + 2), "[CDATA["@) {
            Scan { at: end_after(s, at + 9, seq![']', ']']) + 1, ..st }
        } else if at + 2 < s.len() && (s[at + 2] == 'D' || s[at + 2] == 'd') {
            Scan { at: dtd_end(s, at + 2, Dtd::Before) + 1, ..st }
        } else {
            Scan { at: at + 1, trusted: false, ..st }
        }
    } else {
        let end = tag_end(s, at + 1, Quote::Outside);
        if end < s.len() && s[end - 1] == '/' {
            Scan { at: end + 1, best: deeper(st), ..st }
        } else {
            Scan { at: end + 1, depth: st.depth + 1, best: deeper(st), trusted: st.trusted }
        }
    }
}

/// The most elements that are open at once from the state `st` on.
pub open spec fn scan(s: Seq<char>, st: Scan) -> nat
    decreases s.len() - st.at,
{
    if st.at < 0 || st.at >= s.len() {
        st.best
    } else {
        let next = step(s, st);
        if st.at < next.at <= s.len() {
            scan(s, next)
        } else {
            next.best
        }
    }
}

/// How deeply the elements of the text `s` are nested, at most.
pub open spec fn nesting(s: Seq<char>) -> nat {
    scan(s, Scan { at: 0, depth: 0, best: 0, trusted: true })
}

proof fn lemma_tag_end_bounds(s: Seq<char>, at: int, quote: Quote)
    requires
        0 <= at <= s.len(),
    ensures
        at <= tag_end(s, at, quote) <= s.len(),
    decreases s.len() - at,
{
    if at < s.len() && !(quote == Quote::Outside && s[at] == '>') {
        lemma_tag_end_bounds(s, at + 1, after_quote(quote, s[at]));
    }
}

proof fn lemma_end_after_bounds(s: Seq<char>, at: int, mark: Seq<char>)
    requires
        0 <= at <= s.len(),
    ensures
        at <= end_after(s, at, mark) <= s.len(),
    decreases s.len() - at,
{
    if at < s.len() && !(s[at] == '>' && mark.len() <= at && s.subrange(at - mark.len(), at)
        == mark) {
        lemma_end_after_bounds(s, at + 1, mark);
    }
}

proof fn lemma_dtd_end_bounds(s: Seq<char>, at: int, state: Dtd)
    requires
        0 <= at <= s.len(),
    ensures
        at <= dtd_end(s, at, state) <= s.len(),
    decreases s.len() - at,
{
    if at < s.len() {
        let c = s[at];
        match state {
            Dtd::Before => if c == '>' {
            } else if c == '\'' || c == '"' {
                lemma_dtd_end_bounds(s, at + 1, Dtd::Quoted(c));
            } else if c == '[' {
                lemma_dtd_end_bounds(s, at + 1, Dtd::Inside);
            } else {
                lemma_dtd_end_bounds(s, at + 1, Dtd::Before);
            },
            Dtd::Quoted(quote) => if c == quote {
                lemma_dtd_end_bounds(s, at + 1, Dtd::Before);
            } else {
                lemma_dtd_end_bounds(s, at + 1, state);
            },
            Dtd::Inside => if c == ']' {
                lemma_dtd_end_bounds(s, at + 1, Dtd::After);
            } else if c == '<' {
                let next = markup_end(s, at);
                if at < next <= s.len() {
                    lemma_dtd_end_bounds(s, next, Dtd::Inside);
                }
            } else {
                lemma_dtd_end_bounds(s, at + 1, Dtd::Inside);
            },
            Dtd::After => if c != '>' {
                lemma_dtd_end_bounds(s, at + 1, Dtd::After);
            },
        }
    }
}

fn find_tag_end(v: &Vec<char>, from: usize) -> (end: usize)
    requires
        from <= v.len(),
    ensures
        end == tag_end(v@, from as int, Quote::Outside),
        from <= end <= v.len(),
{
    let mut i: usize = from;
    let mut quote = Quote::Outside;
    proof {
        lemma_tag_end_bounds(v@, from as int, Quote::Outside);
    }
    while i < v.len()
        invariant
            from <= i <= v.len(),
            tag_end(v@, i as int, quote) == tag_end(v@, from as int, Quote::Outside),
        decreases v.len() - i,
    {
        let c = v[i];
        quote = match quote {
            Quote::Outside => {
                if c == '>' {
                    return i;
                }
                if c == '\'' {
                    Quote::Single
                } else if c == '"' {
                    Quote::Double
                } else {
                    Quote::Outside
                }
            },
            Quote::Single => if c == '\'' {
                Quote::Outside
            } else {
                Quote::Single
            },
            Quote::Double => if c == '"' {
                Quote::Outside
            } else {
                Quote::Double
            },
        };
        i += 1;
    }
    i
}

fn find_end_after(v: &Vec<char>, from: usize, mark: &Vec<char>) -> (end: usize)
    requires
        from <= v.len(),
    ensures
        end == end_after(v@, from as int, mark@),
        from <= end <= v.len(),
{
    let mut i: usize = from;
    proof {
        lemma_end_after_bounds(v@, from as int, mark@);
    }
    while i < v.len()
        invariant
            from <= i <= v.len(),
            end_after(v@, i as int, mark@) == end_after(v@, from as int, mark@),
        decreases v.len() - i,
    {
        if v[i] == '>' && mark.len() <= i {
            assert(v@.skip(i - mark.len()).take(mark.len() as int) =~= v@.subrange(
                i - mark.len(),
                i as int,
            ));
            if starts_with_at(v, i - mark.len(), mark) {
                return i;
            }
        }
        i += 1;
    }
    i
}

/// `from` and `more` in one, held at the length of `v`.
fn within(v: &Vec<char>, from: usize, more: usize) -> (at: usize)
    requires
        from <= v.len(),
    ensures
        at == if from + more <= v.len() {
            from + more
        } else {
            v.len() as int
        },
{
    if v.len() - from >= more {
        from + more
    } else {
        v.len()
    }
}

fn find_markup_end(v: &Vec<char>, at: usize) -> (next: usize)
    requires
        at < v.len(),
    ensures
        markup_end(v@, at as int) > v.len() ==> next == v.len(),
        markup_end(v@, at as int) <= v.len() ==> next == markup_end(v@, at as int),
{
    let none: Vec<char> = Vec::new();
    let question = vec!['?'];
    let dashes = vec!['-', '-'];
    proof {
        assert(none@ =~= Seq::<char>::empty());
        assert(question@ =~= seq!['?']);
        assert(dashes@ =~= seq!['-', '-']);
    }
    let end = if starts_with_at(v, at + 1, &chars_of("?")) {
        return find_end_after(v, within(v, at, 3), &question);
    } else if starts_with_at(v, at + 1, &chars_of("!--")) {
        find_end_after(v, within(v, at, 6), &dashes)
    } else if starts_with_at(v, at + 1, &chars_of("!ELEMENT")) {
        find_end_after(v, within(v, at, 9), &none)
    } else if starts_with_at(v, at + 1, &chars_of("!ENTITY")) {
        return find_tag_end(v, within(v, at, 8));
    } else if starts_with_at(v, at + 1, &chars_of("!ATTLIST")) {
        return find_tag_end(v, within(v, at, 9));
    } else if starts_with_at(v, at + 1, &chars_of("!NOTATION")) {
        return find_tag_end(v, within(v, at, 10));
    } else {
        find_end_after(v, at + 1, &none)
    };
    if end < v.len() {
        end + 1
    } else {
        end
    }
}

fn find_dtd_end(v: &Vec<char>, from: usize) -> (end: usize)
    requires
        from <= v.len(),
    ensures
        end == dtd_end(v@, from as int, Dtd::Before),
        from <= end <= v.len(),
{
    let mut i: usize = from;
    let mut state = Dtd::Before;
    proof {
        lemma_dtd_end_bounds(v@, from as int, Dtd::Before);
    }
    while i < v.len()
        invariant
            from <= i <= v.len(),
            dtd_end(v@, i as int, state) == dtd_end(v@, from as int, Dtd::Before),
        decreases v.len() - i,
    {
        let c = v[i];
        match state {
            Dtd::Before => {
                if c == '>' {
                    return i;
                }
                if c == '\'' || c == '"' {
                    state = Dtd::Quoted(c);
                } else if c == '[' {
                    state = Dtd::Inside;
                }
                i += 1;
            },
            Dtd::Quoted(quote) => {
                if c == quote {
                    state = Dtd::Before;
                }
                i += 1;
            },
            Dtd::Inside => {
                if c == ']' {
                    state = Dtd::After;
                    i += 1;
                } else if c == '<' {
                    let next = find_markup_end(v, i);
                    if next > i {
                        i = next;
                    } else {
                        i = v.len();
                    }
                } else {
                    i += 1;
                }
            },
            Dtd::After => {
                if c == '>' {
                    return i;
                }
                i += 1;
            },
        }
    }
    i
}

/// How deeply the elements of `text` are nested, at most.
pub fn nesting_of(text: &str) -> (n: usize)
    ensures
        n == nesting(text@),
{
    let v = chars_of(text);
    let question = vec!['?'];
    let dashes = vec!['-', '-'];
    let brackets = vec![']', ']'];
    let comment = chars_of("--");
    let cdata = chars_of("[CDATA[");
    let mut at: usize = 0;
    let mut depth: usize = 0;
    let mut best: usize = 0;
    let mut trusted = true;
    while at < v.len()
        invariant
            at <= v.len(),
            depth <= at,
            best <= at,
            v@ == text@,
            question@ == seq!['?'],
            dashes@ == seq!['-', '-'],
            brackets@ == seq![']', ']'],
            comment@ == "--"@,
            cdata@ == "[CDATA["@,
            scan(v@, Scan { at: at as int, depth: depth as nat, best: best as nat, trusted })
                == nesting(v@),
        decreases v.len() - at,
    {
        let ghost st = Scan { at: at as int, depth: depth as nat, best: best as nat, trusted };
        if v[at] != '<' || at + 1 >= v.len() {
            at += 1;
        } else if !trusted {
            let c = v[at + 1];
            if c != '/' && c != '!' && c != '?' {
                depth += 1;
                if depth > best {
                    best = depth;
                }
            }
            at += 1;
        } else if v[at + 1] == '/' {
            let end = find_tag_end(&v, at + 1);
            if depth > 0 {
                depth -= 1;
            }
            at = if end < v.len() {
                end + 1
            } else {
                end
            };
        } else if v[at + 1] == '?' {
            let end = find_end_after(&v, at + 2, &question);
            at = if end < v.len() {
                end + 1
            } else {
                end
            };
        } else if v[at + 1] == '!' {
            if starts_with_at(&v, at + 2, &comment) {
                let from = if v.len() - at >= 6 {
                    at + 6
                } else {
                    v.len()
                };
                let end = find_end_after(&v, from, &dashes);
                at = if end < v.len() {
                    end + 1
                } else {
                    end
                };
            } else if starts_with_at(&v, at + 2, &cdata) {
                let from = if v.len() - at >= 9 {
                    at + 9
                } else {
                    v.len()
                };
                let end = find_end_after(&v, from, &brackets);
                at = if end < v.len() {
                    end + 1
                } else {
                    end
                };
            } else if at + 2 < v.len() && (v[at + 2] == 'D' || v[at + 2] == 'd') {
                let end = find_dtd_end(&v, at + 2);
                at = if end < v.len() {
                    end + 1
                } else {
                    end
                };
            } else {
                trusted = false;
                at += 1;
            }
        } else {
            let end = find_tag_end(&v, at + 1);
            if end < v.len() && v[end - 1] == '/' {
                if depth + 1 > best {
                    best = depth + 1;
                }
            } else {
                depth += 1;
                if depth > best {
                    best = depth;
                }
            }
            at = if end < v.len() {
                end + 1
            } else {
                end
            };
        }
        proof {
            let next = step(v@, st);
            lemma_tag_end_bounds(v@, st.at + 1, Quote::Outside);
            let now = Scan { at: at as int, depth: depth as nat, best: best as nat, trusted };
            assert(next.at > st.at);
            assert(now.depth == next.depth && now.best == next.best && now.trusted == next.trusted);
            assert(now.at == next.at || (now.at == v@.len() && next.at > v@.len()));
            assert(scan(v@, st) == scan(v@, now));
        }
    }
    best
}

} // verus!
