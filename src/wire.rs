//! The line encoding of protocol messages.
//!
//! A line is the command word followed by the arguments, each preceded by a
//! single space. An argument holding no space, single quote or double quote
//! is written bare; any other argument is wrapped in single quotes, and each
//! single quote inside it is written as `'\''` (close the quote, an escaped
//! quote, reopen the quote).
use vstd::prelude::*;

verus! {

/// Whether a character forces its argument into quotes.
pub open spec fn is_special(c: char) -> bool {
    c == ' ' || c == '\'' || c == '"'
}

/// Whether an argument must be quoted on the wire.
pub open spec fn needs_quotes(a: Seq<char>) -> bool {
    exists|i: int| 0 <= i < a.len() && is_special(#[trigger] a[i])
}

/// How one character of a quoted argument is written.
pub open spec fn quoted_char(c: char) -> Seq<char> {
    if c == '\'' {
        seq!['\'', '\\', '\'', '\'']
    } else {
        seq![c]
    }
}

/// The inside of a quoted argument.
pub open spec fn quoted_body(a: Seq<char>) -> Seq<char>
    decreases a.len(),
{
    if a.len() == 0 {
        Seq::empty()
    } else {
        quoted_body(a.drop_last()) + quoted_char(a.last())
    }
}

/// How one argument is written on the wire.
pub open spec fn encoded_arg(a: Seq<char>) -> Seq<char> {
    if needs_quotes(a) {
        seq!['\''] + quoted_body(a) + seq!['\'']
    } else {
        a
    }
}

/// The arguments of a line, each preceded by a space.
pub open spec fn encoded_args(args: Seq<Seq<char>>) -> Seq<char>
    decreases args.len(),
{
    if args.len() == 0 {
        Seq::empty()
    } else {
        encoded_args(args.drop_last()) + seq![' '] + encoded_arg(args.last())
    }
}

/// The line that carries a command word and its arguments.
pub open spec fn packed_line(word: Seq<char>, args: Seq<Seq<char>>) -> Seq<char> {
    word + encoded_args(args)
}

/// Tells whether an argument must be quoted on the wire.
pub fn arg_needs_quotes(a: &str) -> (r: bool)
    ensures
        r == needs_quotes(a@),
{
    let n = a.unicode_len();
    let mut i: usize = 0;
    while i < n
        invariant
            n == a@.len(),
            i <= n,
            forall|j: int| 0 <= j < i ==> !is_special(#[trigger] a@[j]),
        decreases n - i,
    {
        let c = a.get_char(i);
        if c == ' ' || c == '\'' || c == '"' {
            return true;
        }
        i = i + 1;
    }
    false
}

/// Appends the wire form of one argument to `out`.
pub fn push_arg(out: &mut String, a: &str)
    ensures
        final(out)@ == old(out)@ + encoded_arg(a@),
{
    if !arg_needs_quotes(a) {
        out.append(a);
        return;
    }
    proof {
        reveal_strlit("'");
        reveal_strlit("'\\''");
    }
    out.append("'");
    let ghost start = out@;
    let n = a.unicode_len();
    let mut i: usize = 0;
    while i < n
        invariant
            n == a@.len(),
            i <= n,
            out@ == start + quoted_body(a@.take(i as int)),
        decreases n - i,
    {
        let c = a.get_char(i);
        let ghost before = out@;
        if c == '\'' {
            out.append("'\\''");
            proof {
                reveal_strlit("'\\''");
            }
            assert("'\\''"@ =~= quoted_char(c));
        } else {
            out.append(a.substring_char(i, i + 1));
            assert(a@.subrange(i as int, i + 1) =~= quoted_char(c));
        }
        proof {
            let t = a@.take(i + 1);
            assert(t.drop_last() =~= a@.take(i as int));
            assert(t.last() == c);
            assert(quoted_body(t) == quoted_body(a@.take(i as int)) + quoted_char(c));
            assert(out@ =~= start + quoted_body(t));
        }
        i = i + 1;
    }
    assert(a@.take(n as int) =~= a@);
    out.append("'");
}

/// Encodes a command word and its arguments as one protocol line.
pub fn pack(word: &str, args: &[&str]) -> (r: String)
    ensures
        r@ == packed_line(word@, crate::util::strs_view(args@)),
{
    let mut out = String::from_str(word);
    let mut i: usize = 0;
    while i < args.len()
        invariant
            i <= args.len(),
            out@ == word@ + encoded_args(crate::util::strs_view(args@.take(i as int))),
        decreases args.len() - i,
    {
        let ghost before = out@;
        proof {
            reveal_strlit(" ");
        }
        out.append(" ");
        assert(out@ =~= before + seq![' ']);
        push_arg(&mut out, args[i]);
        proof {
            let u = crate::util::strs_view(args@.take(i as int));
            let v = crate::util::strs_view(args@.take(i + 1));
            assert(v.drop_last() =~= u);
            assert(v.last() == args@[i as int]@);
            assert(encoded_args(v) == encoded_args(u) + seq![' '] + encoded_arg(args@[i as int]@));
            assert(out@ =~= word@ + encoded_args(v));
        }
        i = i + 1;
    }
    assert(args@.take(args.len() as int) =~= args@);
    out
}

/// Where a reader of a line stands between two characters.
pub enum ScanMode {
    /// Outside quotes, in a bare stretch of the current word.
    Bare,
    /// Inside single quotes.
    Quoted,
    /// Just after a closing quote.
    Closed,
    /// After a backslash that follows a closing quote.
    Escaped,
}

/// What a reader of a line has gathered so far: the finished words, the
/// word being read, and where it stands.
pub struct ScanState {
    pub done: Seq<Seq<char>>,
    pub cur: Seq<char>,
    pub mode: ScanMode,
}

/// Ends the current word at a separating space.
pub open spec fn end_word(st: ScanState) -> ScanState {
    ScanState { done: st.done.push(st.cur), cur: Seq::empty(), mode: ScanMode::Bare }
}

/// Adds a character to the current word.
pub open spec fn add_char(st: ScanState, c: char, mode: ScanMode) -> ScanState {
    ScanState { done: st.done, cur: st.cur.push(c), mode }
}

/// Switches mode without reading anything into the word.
pub open spec fn switch(st: ScanState, mode: ScanMode) -> ScanState {
    ScanState { done: st.done, cur: st.cur, mode }
}

/// How reading one character moves the reader.
pub open spec fn scan_char(st: ScanState, c: char) -> ScanState {
    match st.mode {
        ScanMode::Bare => if c == ' ' {
            end_word(st)
        } else if c == '\'' {
            switch(st, ScanMode::Quoted)
        } else {
            add_char(st, c, ScanMode::Bare)
        },
        ScanMode::Quoted => if c == '\'' {
            switch(st, ScanMode::Closed)
        } else {
            add_char(st, c, ScanMode::Quoted)
        },
        ScanMode::Closed => if c == ' ' {
            end_word(st)
        } else if c == '\'' {
            switch(st, ScanMode::Quoted)
        } else if c == '\\' {
            switch(st, ScanMode::Escaped)
        } else {
            add_char(st, c, ScanMode::Bare)
        },
        ScanMode::Escaped => add_char(st, c, ScanMode::Bare),
    }
}

/// The reader's state after reading `s` from `st`.
pub open spec fn scan(st: ScanState, s: Seq<char>) -> ScanState
    decreases s.len(),
{
    if s.len() == 0 {
        st
    } else {
        scan_char(scan(st, s.drop_last()), s.last())
    }
}

/// The words a line reads as: the command word, then the arguments.
pub open spec fn line_words(line: Seq<char>) -> Seq<Seq<char>> {
    let st = scan(ScanState { done: Seq::empty(), cur: Seq::empty(), mode: ScanMode::Bare }, line);
    st.done.push(st.cur)
}

/// Whether a command word can stand bare on the wire.
pub open spec fn is_bare_word(w: Seq<char>) -> bool {
    !needs_quotes(w)
}

/// Reading two pieces in turn is reading them together.
pub proof fn lemma_scan_concat(st: ScanState, a: Seq<char>, b: Seq<char>)
    ensures
        scan(st, a + b) == scan(scan(st, a), b),
    decreases b.len(),
{
    if b.len() == 0 {
        assert(a + b =~= a);
    } else {
        assert((a + b).drop_last() =~= a + b.drop_last());
        assert((a + b).last() == b.last());
        lemma_scan_concat(st, a, b.drop_last());
    }
}

/// Characters that need no quotes are read into the current word as they are.
proof fn lemma_scan_bare(st: ScanState, w: Seq<char>)
    requires
        st.mode is Bare,
        !needs_quotes(w),
    ensures
        scan(st, w) == (ScanState { done: st.done, cur: st.cur + w, mode: ScanMode::Bare }),
    decreases w.len(),
{
    if w.len() == 0 {
        assert(st.cur + w =~= st.cur);
    } else {
        assert(!needs_quotes(w.drop_last())) by {
            if needs_quotes(w.drop_last()) {
                let i = choose|i: int| 0 <= i < w.drop_last().len() && is_special(#[trigger] w.drop_last()[i]);
                assert(w[i] == w.drop_last()[i]);
            }
        }
        assert(!is_special(w[w.len() - 1]));
        lemma_scan_bare(st, w.drop_last());
        assert(st.cur + w.drop_last() + seq![w.last()] =~= st.cur + w);
        assert((st.cur + w.drop_last()).push(w.last()) =~= st.cur + w);
    }
}

/// The inside of a quoted argument is read back into the current word.
proof fn lemma_scan_quoted(st: ScanState, a: Seq<char>)
    requires
        st.mode is Quoted,
    ensures
        scan(st, quoted_body(a)) == (ScanState { done: st.done, cur: st.cur + a, mode: ScanMode::Quoted }),
    decreases a.len(),
{
    if a.len() == 0 {
        assert(st.cur + a =~= st.cur);
        assert(quoted_body(a) =~= Seq::<char>::empty());
    } else {
        let c = a.last();
        lemma_scan_quoted(st, a.drop_last());
        lemma_scan_concat(st, quoted_body(a.drop_last()), quoted_char(c));
        let mid = ScanState { done: st.done, cur: st.cur + a.drop_last(), mode: ScanMode::Quoted };
        assert((st.cur + a.drop_last()).push(c) =~= st.cur + a);
        if c == '\'' {
            let q = quoted_char(c);
            assert(q.drop_last().drop_last().drop_last() =~= seq!['\'']);
            assert(q.drop_last().drop_last() =~= seq!['\'', '\\']);
            assert(q.drop_last() =~= seq!['\'', '\\', '\'']);
            assert(seq!['\''].drop_last() =~= Seq::<char>::empty());
            reveal_with_fuel(scan, 5);
            assert(scan(mid, q) == scan_char(
                scan_char(scan_char(scan_char(mid, '\''), '\\'), '\''),
                '\'',
            ));
        } else {
            assert(quoted_char(c).drop_last() =~= Seq::<char>::empty());
            assert(scan(mid, quoted_char(c)) == scan_char(scan(mid, Seq::<char>::empty()), c));
        }
    }
}

/// After a separating space, an encoded argument is read back whole, and
/// the reader is ready for the next space.
proof fn lemma_scan_arg(st: ScanState, a: Seq<char>)
    requires
        st.mode is Bare || st.mode is Closed,
    ensures
        ({
            let r = scan(st, seq![' '] + encoded_arg(a));
            &&& r.done == st.done.push(st.cur)
            &&& r.cur == a
            &&& (r.mode is Bare || r.mode is Closed)
        }),
{
    let sp = seq![' '];
    assert(sp.drop_last() =~= Seq::<char>::empty());
    let st1 = scan(st, sp);
    assert(scan(st, sp.drop_last()) == st);
    assert(st1 == end_word(st));
    lemma_scan_concat(st, sp, encoded_arg(a));
    if needs_quotes(a) {
        let open = seq!['\''];
        assert(open.drop_last() =~= Seq::<char>::empty());
        lemma_scan_concat(st1, open, quoted_body(a));
        let st2 = scan(st1, open);
        assert(scan(st1, open.drop_last()) == st1);
        assert(st2.mode is Quoted);
        lemma_scan_quoted(st2, a);
        let st3 = scan(st2, quoted_body(a));
        assert(scan(st3, open.drop_last()) == st3);
        lemma_scan_concat(st1, open + quoted_body(a), open);
        assert(Seq::<char>::empty() + a =~= a);
        assert(encoded_arg(a) == open + quoted_body(a) + open);
    } else {
        lemma_scan_bare(st1, a);
        assert(Seq::<char>::empty() + a =~= a);
    }
}

/// Reading the encoded arguments after a word gives back the word and the
/// arguments.
proof fn lemma_scan_args(w: Seq<char>, args: Seq<Seq<char>>)
    ensures
        ({
            let st = ScanState { done: Seq::empty(), cur: w, mode: ScanMode::Bare };
            let r = scan(st, encoded_args(args));
            &&& r.done.push(r.cur) == seq![w] + args
            &&& (r.mode is Bare || r.mode is Closed)
        }),
    decreases args.len(),
{
    let st = ScanState { done: Seq::empty(), cur: w, mode: ScanMode::Bare };
    if args.len() == 0 {
        assert(Seq::<Seq<char>>::empty().push(w) =~= seq![w] + args);
    } else {
        let init = args.drop_last();
        lemma_scan_args(w, init);
        let mid = scan(st, encoded_args(init));
        lemma_scan_concat(st, encoded_args(init), seq![' '] + encoded_arg(args.last()));
        assert(encoded_args(args) =~= encoded_args(init) + (seq![' '] + encoded_arg(args.last())));
        lemma_scan_arg(mid, args.last());
        assert((seq![w] + init).push(args.last()) =~= seq![w] + args);
    }
}

/// Every line made by the encoding reads back as the command word and
/// arguments it was made from, whatever the arguments hold (spaces and
/// quotes included), as long as the word needs no quotes.
pub proof fn lemma_pack_round_trip(word: Seq<char>, args: Seq<Seq<char>>)
    requires
        is_bare_word(word),
    ensures
        line_words(packed_line(word, args)) == seq![word] + args,
{
    let st0 = ScanState { done: Seq::empty(), cur: Seq::empty(), mode: ScanMode::Bare };
    lemma_scan_bare(st0, word);
    assert(Seq::<char>::empty() + word =~= word);
    lemma_scan_concat(st0, word, encoded_args(args));
    lemma_scan_args(word, args);
}

/// Two messages whose words need no quotes are encoded as the same line
/// only when they are the same message.
pub proof fn lemma_pack_injective(
    w1: Seq<char>,
    a1: Seq<Seq<char>>,
    w2: Seq<char>,
    a2: Seq<Seq<char>>,
)
    requires
        is_bare_word(w1),
        is_bare_word(w2),
        packed_line(w1, a1) == packed_line(w2, a2),
    ensures
        w1 == w2,
        a1 == a2,
{
    lemma_pack_round_trip(w1, a1);
    lemma_pack_round_trip(w2, a2);
    let t1 = seq![w1] + a1;
    let t2 = seq![w2] + a2;
    assert(t1[0] == t2[0]);
    assert(a1 =~= t1.drop_first());
    assert(a2 =~= t2.drop_first());
}

} // verus!
