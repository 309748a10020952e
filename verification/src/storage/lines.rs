use vstd::prelude::*;
use vstd::string::StrSliceExecFns;
use vstd::string::StringExecFns;

verus! {

/// A valid stored line: non-empty, with no newline inside.
pub open spec fn valid_line(s: Seq<char>) -> bool {
    s.len() > 0 && forall|i: int| 0 <= i < s.len() ==> s[i] != '\n'
}

/// The file text for a sequence of lines: each line followed by one newline.
pub open spec fn render_lines(ls: Seq<Seq<char>>) -> Seq<char>
    decreases ls.len(),
{
    if ls.len() == 0 {
        Seq::empty()
    } else {
        ls[0] + seq!['\n'] + render_lines(ls.drop_first())
    }
}

/// Whether a text is a well-formed line file: empty, or not starting with a
/// newline, ending with one, and holding no empty line.
pub open spec fn well_formed_lines(t: Seq<char>) -> bool {
    t.len() == 0 || (t[0] != '\n' && t[t.len() - 1] == '\n' && forall|i: int|
        0 <= i < t.len() - 1 ==> !(#[trigger] t[i] == '\n' && t[i + 1] == '\n'))
}

/// Appending one line extends the rendered text by the line and a newline.
pub proof fn lemma_render_push(ls: Seq<Seq<char>>, l: Seq<char>)
    ensures
        render_lines(ls.push(l)) == render_lines(ls) + l + seq!['\n'],
    decreases ls.len(),
{
    if ls.len() == 0 {
        assert(ls.push(l)[0] == l);
        assert(ls.push(l).drop_first() =~= Seq::<Seq<char>>::empty());
        assert(render_lines(ls.push(l).drop_first()) =~= Seq::<char>::empty());
        assert(render_lines(ls) =~= Seq::<char>::empty());
        assert(render_lines(ls.push(l)) =~= render_lines(ls) + l + seq!['\n']);
    } else {
        assert(ls.push(l).drop_first() =~= ls.drop_first().push(l));
        assert(ls.push(l)[0] == ls[0]);
        lemma_render_push(ls.drop_first(), l);
        assert(render_lines(ls.push(l)) =~= render_lines(ls) + l + seq!['\n']);
    }
}

/// Parse a line file into its lines. Succeeds exactly on well-formed texts;
/// the lines are then all valid and render back to the text unchanged.
pub fn parse_lines(text: &str) -> (r: Option<Vec<String>>)
    ensures
        r is Some <==> well_formed_lines(text@),
        r matches Some(ls) ==> render_lines(ls.deep_view()) == text@ && forall|k: int|
            0 <= k < ls.deep_view().len() ==> valid_line(#[trigger] ls.deep_view()[k]),
{
    let n = text.unicode_len();
    let mut lines: Vec<String> = Vec::new();
    let mut line_start: usize = 0;
    let mut i: usize = 0;
    while i < n
        invariant
            line_start <= i <= n,
            n == text@.len(),
            render_lines(lines.deep_view()) == text@.subrange(0, line_start as int),
            forall|k: int|
                0 <= k < lines.deep_view().len() ==> valid_line(#[trigger] lines.deep_view()[k]),
            forall|j: int| line_start <= j < i ==> text@[j] != '\n',
            line_start == 0 || text@[line_start - 1] == '\n',
            i > 0 ==> text@[0] != '\n',
            forall|j: int| 0 <= j < i - 1 ==> !(#[trigger] text@[j] == '\n' && text@[j + 1]
                == '\n'),
        decreases n - i,
    {
        let c = text.get_char(i);
        if c == '\n' {
            if i == line_start {
                proof {
                    assert(!well_formed_lines(text@));
                }
                return None;
            }
            let line = text.substring_char(line_start, i);
            let ghost prev = lines.deep_view();
            lines.push(String::from_str(line));
            proof {
                assert(valid_line(line@)) by {
                    assert(forall|q: int|
                        0 <= q < line@.len() ==> line@[q] == text@[line_start + q]);
                }
                assert(lines.deep_view() =~= prev.push(line@));
                lemma_render_push(prev, line@);
                assert(render_lines(lines.deep_view()) =~= text@.subrange(0, i + 1 as int));
            }
            line_start = i + 1;
        }
        i = i + 1;
    }
    if line_start < n {
        proof {
            assert(text@[n - 1] != '\n');
            assert(!well_formed_lines(text@));
        }
        return None;
    }
    proof {
        assert(text@.subrange(0, n as int) =~= text@);
        if n > 0 {
            assert(well_formed_lines(text@));
        }
    }
    Some(lines)
}

/// Rendering valid lines always yields a well-formed line file.
pub proof fn lemma_render_well_formed(ls: Seq<Seq<char>>)
    requires
        forall|i: int| 0 <= i < ls.len() ==> valid_line(#[trigger] ls[i]),
    ensures
        well_formed_lines(render_lines(ls)),
    decreases ls.len(),
{
    if ls.len() > 0 {
        let head = ls[0];
        let rest = ls.drop_first();
        assert(forall|i: int| 0 <= i < rest.len() ==> valid_line(#[trigger] rest[i])) by {
            assert(forall|i: int| 0 <= i < rest.len() ==> rest[i] == ls[i + 1]);
        }
        lemma_render_well_formed(rest);
        let t = render_lines(ls);
        let tr = render_lines(rest);
        let hl = head.len() as int;
        assert(t == head + seq!['\n'] + tr);
        assert(t.len() == hl + 1 + tr.len());
        assert(t[0] != '\n');
        if tr.len() == 0 {
            assert(t[t.len() - 1] == '\n');
        } else {
            assert(t[t.len() - 1] == tr[tr.len() - 1]);
        }
        assert forall|i: int| 0 <= i < t.len() - 1 implies !(#[trigger] t[i] == '\n' && t[i + 1]
            == '\n') by {
            if i < hl {
                assert(t[i] == head[i]);
            } else if i == hl {
                assert(t[i + 1] == tr[0]);
                assert(tr[0] != '\n');
            } else {
                assert(t[i] == tr[i - hl - 1]);
                assert(t[i + 1] == tr[i - hl]);
            }
        }
    }
}

/// Rendering is injective: the file text determines the stored lines.
pub proof fn lemma_render_injective(a: Seq<Seq<char>>, b: Seq<Seq<char>>)
    requires
        forall|i: int| 0 <= i < a.len() ==> valid_line(#[trigger] a[i]),
        forall|i: int| 0 <= i < b.len() ==> valid_line(#[trigger] b[i]),
        render_lines(a) == render_lines(b),
    ensures
        a == b,
    decreases a.len(),
{
    if a.len() == 0 && b.len() == 0 {
        assert(a =~= b);
    } else if a.len() == 0 {
        assert(render_lines(a).len() == 0);
        assert(render_lines(b).len() == b[0].len() + 1 + render_lines(b.drop_first()).len());
    } else if b.len() == 0 {
        assert(render_lines(b).len() == 0);
        assert(render_lines(a).len() == a[0].len() + 1 + render_lines(a.drop_first()).len());
    } else {
        let t = render_lines(a);
        let ha = a[0];
        let hb = b[0];
        let la = ha.len() as int;
        let lb = hb.len() as int;
        assert(t == ha + seq!['\n'] + render_lines(a.drop_first()));
        assert(t == hb + seq!['\n'] + render_lines(b.drop_first()));
        if la < lb {
            assert(t[la] == '\n');
            assert(t[la] == hb[la]);
        }
        if lb < la {
            assert(t[lb] == '\n');
            assert(t[lb] == ha[lb]);
        }
        assert(la == lb);
        assert(ha =~= hb) by {
            assert(forall|i: int| 0 <= i < la ==> #[trigger] ha[i] == t[i] && hb[i] == t[i]);
        }
        assert(render_lines(a.drop_first()) =~= render_lines(b.drop_first())) by {
            let ra = render_lines(a.drop_first());
            let rb = render_lines(b.drop_first());
            assert(forall|i: int| 0 <= i < ra.len() ==> #[trigger] ra[i] == t[la + 1 + i]);
            assert(forall|i: int| 0 <= i < rb.len() ==> #[trigger] rb[i] == t[la + 1 + i]);
        }
        assert(forall|i: int|
            0 <= i < a.drop_first().len() ==> valid_line(#[trigger] a.drop_first()[i]));
        assert(forall|i: int|
            0 <= i < b.drop_first().len() ==> valid_line(#[trigger] b.drop_first()[i]));
        lemma_render_injective(a.drop_first(), b.drop_first());
        assert(a =~= b) by {
            assert(forall|i: int| 1 <= i < a.len() ==> a[i] == a.drop_first()[i - 1]);
            assert(forall|i: int| 1 <= i < b.len() ==> b[i] == b.drop_first()[i - 1]);
        }
    }
}

/// Law: persisting a cache and reading the file back restores exactly the
/// stored contents — the rendered text of valid lines is always a
/// well-formed file, so loading it succeeds, and rendering is injective, so
/// the lines loaded from it are the lines that were saved.
pub proof fn lemma_save_load_round_trip(saved: Seq<Seq<char>>, loaded: Seq<Seq<char>>)
    requires
        forall|i: int| 0 <= i < saved.len() ==> valid_line(#[trigger] saved[i]),
        forall|i: int| 0 <= i < loaded.len() ==> valid_line(#[trigger] loaded[i]),
        render_lines(loaded) == render_lines(saved),
    ensures
        well_formed_lines(render_lines(saved)),
        loaded == saved,
{
    lemma_render_well_formed(saved);
    lemma_render_injective(loaded, saved);
}

/// Whether a string is usable as one stored line.
pub fn line_is_valid(s: &String) -> (r: bool)
    ensures
        r == valid_line(s@),
{
    let n = s.as_str().unicode_len();
    if n == 0 {
        return false;
    }
    let mut i: usize = 0;
    while i < n
        invariant
            i <= n,
            n == s@.len(),
            forall|j: int| 0 <= j < i ==> s@[j] != '\n',
        decreases n - i,
    {
        if s.as_str().get_char(i) == '\n' {
            return false;
        }
        i = i + 1;
    }
    true
}

/// Render lines to the file text they parse back from.
pub fn lines_to_text(lines: &Vec<String>) -> (r: String)
    ensures
        r@ == render_lines(lines.deep_view()),
{
    let mut out = String::new();
    let mut i: usize = 0;
    proof {
        reveal_strlit("\n");
    }
    while i < lines.len()
        invariant
            i <= lines@.len(),
            out@ == render_lines(lines.deep_view().subrange(0, i as int)),
            "\n"@ == seq!['\n'],
        decreases lines@.len() - i,
    {
        out.append(lines[i].as_str());
        out.append("\n");
        proof {
            let prev = lines.deep_view().subrange(0, i as int);
            assert(lines.deep_view().subrange(0, i + 1 as int) =~= prev.push(
                lines.deep_view()[i as int],
            ));
            lemma_render_push(prev, lines.deep_view()[i as int]);
            assert(out@ =~= render_lines(lines.deep_view().subrange(0, i + 1 as int)));
        }
        i = i + 1;
    }
    proof {
        assert(lines.deep_view().subrange(0, lines.deep_view().len() as int)
            =~= lines.deep_view());
    }
    out
}

} // verus!
