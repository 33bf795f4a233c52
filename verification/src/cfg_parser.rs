use vstd::prelude::*;
use crate::text::{push_char, string_views};

verus! {

/// The state of the argument-file scanner after some prefix of the text.
pub struct CfgScan {
    /// No character of the current line has been consumed yet.
    pub line_first: bool,
    /// The items completed so far.
    pub items: Seq<Seq<char>>,
    /// The item being collected.
    pub item: Seq<char>,
    /// The previous character was not an unconsumed backslash.
    pub not_escaped: bool,
    /// The scanner is inside a comment line.
    pub is_comment: bool,
    /// The opening quote character, or a space outside quotes.
    pub quote: char,
}

/// Characters that separate items outside quotes.
pub open spec fn is_cfg_space(c: char) -> bool {
    c == ' ' || c == '\r' || c == '\t' || c == '\n'
}

/// The scanner state before any character.
pub open spec fn cfg_start() -> CfgScan {
    CfgScan {
        line_first: true,
        items: seq![],
        item: seq![],
        not_escaped: true,
        is_comment: false,
        quote: ' ',
    }
}

/// The scanner state after one more character `c`.
pub open spec fn cfg_step(s: CfgScan, c: char) -> CfgScan {
    if s.is_comment {
        if c == '\n' {
            CfgScan { line_first: true, is_comment: false, ..s }
        } else {
            s
        }
    } else if c == '\\' && s.not_escaped {
        CfgScan { not_escaped: false, line_first: false, ..s }
    } else if c == '#' && s.line_first {
        CfgScan { is_comment: true, ..s }
    } else if (c == '\'' || c == '"') && s.not_escaped {
        CfgScan {
            quote: if s.quote != ' ' { ' ' } else { c },
            line_first: false,
            not_escaped: true,
            ..s
        }
    } else if is_cfg_space(c) && s.quote == ' ' {
        let flushed = if s.item.len() > 0 {
            CfgScan { items: s.items.push(s.item), item: seq![], ..s }
        } else {
            s
        };
        if c == '\n' {
            CfgScan { line_first: true, not_escaped: true, ..flushed }
        } else {
            CfgScan { line_first: false, not_escaped: true, ..flushed }
        }
    } else {
        CfgScan { item: s.item.push(c), line_first: false, not_escaped: true, ..s }
    }
}

/// The scanner state after all of `text`.
pub open spec fn cfg_run(text: Seq<char>) -> CfgScan
    decreases text.len(),
{
    if text.len() == 0 {
        cfg_start()
    } else {
        cfg_step(cfg_run(text.drop_last()), text.last())
    }
}

/// The items that an argument file with content `text` yields.
///
/// Items are separated by spaces, tabs and line breaks outside quotes; a
/// quote character opens a quoted part and either quote character closes it;
/// a backslash takes the next character literally; a line whose first
/// character is `#` is a comment.  An item that no separator ends is not
/// yielded.
pub open spec fn cfg_tokens(text: Seq<char>) -> Seq<Seq<char>> {
    cfg_run(text).items
}

/// No item that an argument file yields is empty.
pub proof fn lemma_cfg_items_nonempty(text: Seq<char>)
    ensures
        forall|i: int| 0 <= i < cfg_tokens(text).len() ==> #[trigger] cfg_tokens(text)[i].len() > 0,
    decreases text.len(),
{
    if text.len() > 0 {
        lemma_cfg_items_nonempty(text.drop_last());
        let prev = cfg_run(text.drop_last());
        let next = cfg_run(text);
        assert(next == cfg_step(prev, text.last()));
        assert(next.items == prev.items || (prev.item.len() > 0 && next.items == prev.items.push(prev.item)));
        assert forall|i: int| 0 <= i < next.items.len() implies #[trigger] next.items[i].len() > 0 by {
            if i < prev.items.len() {
                assert(cfg_tokens(text.drop_last())[i].len() > 0);
            }
        }
    }
}

/// The items of an argument file are the items of any prefix of it followed
/// by further items: reading more text never changes an item already yielded.
pub proof fn lemma_cfg_items_extend(text: Seq<char>, more: Seq<char>)
    ensures
        cfg_tokens(text).len() <= cfg_tokens(text + more).len(),
        cfg_tokens(text + more).take(cfg_tokens(text).len() as int) == cfg_tokens(text),
    decreases more.len(),
{
    if more.len() == 0 {
        assert(text + more =~= text);
    } else {
        lemma_cfg_items_extend(text, more.drop_last());
        assert((text + more).drop_last() =~= text + more.drop_last());
        let a = cfg_tokens(text + more.drop_last());
        let b = cfg_tokens(text + more);
        assert(b.take(a.len() as int) =~= a);
        assert(b.take(cfg_tokens(text).len() as int) =~= a.take(cfg_tokens(text).len() as int));
    }
}

/// The items of `text` split at spaces, tabs and line breaks alone, and the
/// run of other characters after the last break: each maximal nonempty run
/// of other characters that a break ends is an item.
pub open spec fn whitespace_split(text: Seq<char>) -> (Seq<Seq<char>>, Seq<char>)
    decreases text.len(),
{
    if text.len() == 0 {
        (seq![], seq![])
    } else {
        let (items, item) = whitespace_split(text.drop_last());
        if is_cfg_space(text.last()) {
            if item.len() > 0 {
                (items.push(item), seq![])
            } else {
                (items, seq![])
            }
        } else {
            (items, item.push(text.last()))
        }
    }
}

/// `text` holds no quote, backslash or `#`.
pub open spec fn plain_cfg_text(text: Seq<char>) -> bool {
    forall|i: int|
        0 <= i < text.len() ==> #[trigger] text[i] != '"' && text[i] != '\'' && text[i] != '\\' && text[i]
            != '#'
}

/// An argument file without quotes, backslashes and comments is split at
/// white space alone: its items are the nonempty runs between spaces, tabs
/// and line breaks (a run that no break ends is not an item).
pub proof fn lemma_plain_cfg_is_whitespace_split(text: Seq<char>)
    requires
        plain_cfg_text(text),
    ensures
        cfg_tokens(text) == whitespace_split(text).0,
        cfg_run(text).item == whitespace_split(text).1,
        cfg_run(text).quote == ' ',
        cfg_run(text).not_escaped,
        !cfg_run(text).is_comment,
    decreases text.len(),
{
    if text.len() > 0 {
        let prefix = text.drop_last();
        assert(plain_cfg_text(prefix)) by {
            assert forall|i: int| 0 <= i < prefix.len() implies #[trigger] prefix[i] != '"' && prefix[i] != '\''
                && prefix[i] != '\\' && prefix[i] != '#' by {
                assert(prefix[i] == text[i]);
            }
        }
        lemma_plain_cfg_is_whitespace_split(prefix);
        let c = text.last();
        assert(c == text[text.len() - 1]);
    }
}

/// The scanner state after `u`, started in the state `s`.
pub open spec fn cfg_run_from(s: CfgScan, u: Seq<char>) -> CfgScan
    decreases u.len(),
{
    if u.len() == 0 {
        s
    } else {
        cfg_step(cfg_run_from(s, u.drop_last()), u.last())
    }
}

proof fn lemma_cfg_run_append(a: Seq<char>, u: Seq<char>)
    ensures
        cfg_run(a + u) == cfg_run_from(cfg_run(a), u),
    decreases u.len(),
{
    if u.len() == 0 {
        assert(a + u =~= a);
    } else {
        lemma_cfg_run_append(a, u.drop_last());
        assert((a + u).drop_last() =~= a + u.drop_last());
        assert((a + u).last() == u.last());
    }
}

proof fn lemma_comment_body_is_skipped(s: CfgScan, c: Seq<char>)
    requires
        s.is_comment,
        forall|i: int| 0 <= i < c.len() ==> c[i] != '\n',
    ensures
        cfg_run_from(s, c) == s,
    decreases c.len(),
{
    if c.len() > 0 {
        lemma_comment_body_is_skipped(s, c.drop_last());
        assert(c.last() == c[c.len() - 1]);
    }
}

/// A line that begins with `#` is a comment wherever it stands in an
/// argument file: after the start of the file or after a line feed outside
/// quotes, the line `#` + `c` + line feed adds no item, and what follows it
/// reads as if the line were not there.
pub proof fn lemma_comment_lines_add_nothing(t: Seq<char>, c: Seq<char>, u: Seq<char>)
    requires
        t.len() == 0 || (t.last() == '\n' && cfg_run(t.drop_last()).quote == ' '),
        forall|i: int| 0 <= i < c.len() ==> c[i] != '\n',
    ensures
        cfg_tokens(t + seq!['#'] + c + seq!['\n'] + u) == cfg_tokens(t + u),
{
    let st = cfg_run(t);
    if t.len() > 0 {
        assert(t.drop_last() + seq![t.last()] =~= t);
        lemma_cfg_run_append(t.drop_last(), seq![t.last()]);
        assert(seq![t.last()].drop_last() =~= Seq::<char>::empty());
    }
    assert(st.line_first && !st.is_comment);
    let line = seq!['#'] + c + seq!['\n'];
    let in_comment = CfgScan { is_comment: true, ..st };
    assert(cfg_run_from(st, seq!['#']) == in_comment) by {
        let h = seq!['#'];
        assert(h.drop_last() =~= Seq::<char>::empty());
        assert(h.last() == '#');
        assert(cfg_run_from(st, h.drop_last()) == st);
        assert(cfg_step(st, '#') == in_comment);
    }
    lemma_comment_body_is_skipped(in_comment, c);
    assert(cfg_run_from(st, line) == st) by {
        assert(line.drop_last() =~= seq!['#'] + c);
        assert(line.last() == '\n');
        lemma_cfg_run_append(seq!['#'], c);
        lemma_run_from_append(st, seq!['#'], c);
    }
    lemma_run_from_append(st, line, u);
    lemma_cfg_run_append(t, line + u);
    lemma_cfg_run_append(t, u);
    assert(t + seq!['#'] + c + seq!['\n'] + u =~= t + (line + u));
}

proof fn lemma_run_from_append(s: CfgScan, a: Seq<char>, u: Seq<char>)
    ensures
        cfg_run_from(s, a + u) == cfg_run_from(cfg_run_from(s, a), u),
    decreases u.len(),
{
    if u.len() == 0 {
        assert(a + u =~= a);
    } else {
        lemma_run_from_append(s, a, u.drop_last());
        assert((a + u).drop_last() =~= a + u.drop_last());
        assert((a + u).last() == u.last());
    }
}

/// Splits the content of an argument file into its items, as `cfg_tokens` says.
pub fn parser(content: &str) -> (items: Vec<String>)
    ensures
        string_views(items@) == cfg_tokens(content@),
{
    let mut line_first = true;
    let mut items: Vec<String> = Vec::new();
    let mut item = String::new();
    let mut not_escaped = true;
    let mut is_comment = false;
    let mut quote = ' ';
    for c in it: content.chars()
        invariant
            it.seq() == content@,
            ({
                let s = cfg_run(it.seq().take(it.index()));
                &&& s.line_first == line_first
                &&& s.items == string_views(items@)
                &&& s.item == item@
                &&& s.not_escaped == not_escaped
                &&& s.is_comment == is_comment
                &&& s.quote == quote
            }),
    {
        proof {
            let ghost done = it.seq().take(it.index() + 1);
            assert(done.drop_last() =~= it.seq().take(it.index()));
            assert(done.last() == c);
        }
        if is_comment {
            if c == '\n' {
                line_first = true;
                is_comment = false;
            }
        } else if c == '\\' && not_escaped {
            not_escaped = false;
            line_first = false;
        } else if c == '#' && line_first {
            is_comment = true;
        } else if (c == '\'' || c == '"') && not_escaped {
            if quote != ' ' {
                quote = ' ';
            } else {
                quote = c;
            }
            not_escaped = true;
            line_first = false;
        } else if (c == ' ' || c == '\r' || c == '\t' || c == '\n') && quote == ' ' {
            if !item.as_str().is_empty() {
                let ghost prev = items@;
                let done = item;
                items.push(done);
                item = String::new();
                proof {
                    assert(string_views(items@) =~= string_views(prev).push(done@));
                }
            }
            not_escaped = true;
            line_first = c == '\n';
        } else {
            push_char(&mut item, c);
            not_escaped = true;
            line_first = false;
        }
    }
    proof {
        assert(content@.take(content@.len() as int) =~= content@);
    }
    items
}

} // verus!
