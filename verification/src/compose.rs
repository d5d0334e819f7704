//! The source composer: assembles the expanded include chunks of one
//! shader into a single source text.
//!
//! The composed text is a fixed version preamble, then for each chunk a
//! line-directive marker carrying the 1-based chunk index followed by the
//! chunk's text, concatenated in inclusion order with nothing between.
//! The markers keep diagnostics mappable back to each chunk's origin file.

use vstd::prelude::*;
use vstd::string::StringExecFns;

verus! {

broadcast use vstd::std_specs::vec::group_vec_axioms;

/// One included file's text, with its origin for diagnostics.
#[derive(Clone, Debug)]
pub struct SourceChunk {
    pub source: String,
    pub file: String,
    pub line_offset: usize,
}

pub open spec fn digit_char(d: nat) -> char {
    if d == 0 {
        '0'
    } else if d == 1 {
        '1'
    } else if d == 2 {
        '2'
    } else if d == 3 {
        '3'
    } else if d == 4 {
        '4'
    } else if d == 5 {
        '5'
    } else if d == 6 {
        '6'
    } else if d == 7 {
        '7'
    } else if d == 8 {
        '8'
    } else {
        '9'
    }
}

/// The decimal digits of `n`, most significant first.
pub open spec fn dec_digits(n: nat) -> Seq<char>
    decreases n,
{
    if n < 10 {
        seq![digit_char(n)]
    } else {
        dec_digits(n / 10).push(digit_char(n % 10))
    }
}

pub open spec fn chunk_sources(chunks: Seq<SourceChunk>) -> Seq<Seq<char>> {
    chunks.map_values(|c: SourceChunk| c.source@)
}

/// The line marker before the chunk at 0-based position `i`.
pub open spec fn line_marker(i: int) -> Seq<char> {
    "#line 0 "@ + dec_digits((i + 1) as nat) + "\n"@
}

pub open spec fn compose_from(srcs: Seq<Seq<char>>, i: int) -> Seq<char>
    decreases srcs.len() - i,
{
    if i < 0 || i >= srcs.len() {
        Seq::empty()
    } else {
        line_marker(i) + srcs[i] + compose_from(srcs, i + 1)
    }
}

/// The composed source text of a chunk sequence.
pub open spec fn composed_source(srcs: Seq<Seq<char>>) -> Seq<char> {
    "#version 430\n"@ + compose_from(srcs, 0)
}

/// Appends the decimal digits of `n`.
fn append_dec(r: &mut String, n: usize)
    ensures
        final(r)@ == old(r)@ + dec_digits(n as nat),
    decreases n,
{
    if n >= 10 {
        append_dec(r, n / 10);
    }
    let d = n % 10;
    match d {
        0 => r.append("0"),
        1 => r.append("1"),
        2 => r.append("2"),
        3 => r.append("3"),
        4 => r.append("4"),
        5 => r.append("5"),
        6 => r.append("6"),
        7 => r.append("7"),
        8 => r.append("8"),
        _ => r.append("9"),
    }
    proof {
        reveal_strlit("0");
        reveal_strlit("1");
        reveal_strlit("2");
        reveal_strlit("3");
        reveal_strlit("4");
        reveal_strlit("5");
        reveal_strlit("6");
        reveal_strlit("7");
        reveal_strlit("8");
        reveal_strlit("9");
        if n < 10 {
            assert(final(r)@ =~= old(r)@ + dec_digits(n as nat));
        } else {
            assert(final(r)@ =~= old(r)@ + dec_digits(n as nat));
        }
    }
}

/// Composes the final shader text: version preamble, then each chunk
/// behind its line marker, in order.
pub fn get_shader_text(chunks: &Vec<SourceChunk>) -> (r: String)
    ensures
        r@ == composed_source(chunk_sources(chunks@)),
{
    let ghost srcs = chunk_sources(chunks@);
    let mut r = String::from_str("#version 430\n");
    let n = chunks.len();
    let mut i: usize = 0;
    proof {
        assert(r@ + compose_from(srcs, 0) =~= composed_source(srcs));
    }
    while i < n
        invariant
            0 <= i <= n,
            n == chunks.len(),
            srcs == chunk_sources(chunks@),
            r@ + compose_from(srcs, i as int) == composed_source(srcs),
        decreases n - i,
    {
        let ghost r0 = r@;
        r.append("#line 0 ");
        append_dec(&mut r, i + 1);
        r.append("\n");
        r.append(chunks[i].source.as_str());
        proof {
            assert(r@ =~= r0 + line_marker(i as int) + srcs[i as int]);
            assert(r@ + compose_from(srcs, i as int + 1) =~= r0 + compose_from(srcs, i as int));
        }
        i = i + 1;
    }
    proof {
        assert(compose_from(srcs, n as int) =~= Seq::<char>::empty());
        assert(r@ + Seq::<char>::empty() =~= r@);
    }
    r
}

} // verus!
