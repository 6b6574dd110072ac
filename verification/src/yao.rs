//! The line codec: the four cast symbols, their polarity and changing flag,
//! their glyphs, and the derivation of the changed line.

use vstd::prelude::*;

verus! {

/// One cast line: Yang or Yin polarity, changing (old) or static (young).
#[derive(Debug, Clone, Copy, PartialEq, Eq, Structural)]
pub enum Yao {
    /// Old Yin: Yin polarity, changing into Yang.
    YinChanging,
    /// Young Yang: Yang polarity, static.
    YangStatic,
    /// Young Yin: Yin polarity, static.
    YinStatic,
    /// Old Yang: Yang polarity, changing into Yin.
    YangChanging,
}

/// The key character of a line: `'1'` for Yang, `'2'` for Yin.
pub open spec fn spec_index_char(y: Yao) -> char {
    match y {
        Yao::YinChanging | Yao::YinStatic => '2',
        Yao::YangStatic | Yao::YangChanging => '1',
    }
}

/// Whether the line is changing.
pub open spec fn spec_is_changing(y: Yao) -> bool {
    match y {
        Yao::YinChanging | Yao::YangChanging => true,
        Yao::YangStatic | Yao::YinStatic => false,
    }
}

/// The line after change: a changing line flips to the static line of the
/// opposite polarity, a static line stays as it is.
pub open spec fn spec_bian_yao(y: Yao) -> Yao {
    match y {
        Yao::YinChanging => Yao::YangStatic,
        Yao::YangChanging => Yao::YinStatic,
        Yao::YangStatic => Yao::YangStatic,
        Yao::YinStatic => Yao::YinStatic,
    }
}

/// The line decoded from a cast symbol, or `None` outside the four-symbol
/// alphabet.
pub open spec fn spec_yao_of_char(c: char) -> Option<Yao> {
    if c == '0' {
        Some(Yao::YinChanging)
    } else if c == '1' {
        Some(Yao::YangStatic)
    } else if c == '2' {
        Some(Yao::YinStatic)
    } else if c == '3' {
        Some(Yao::YangChanging)
    } else {
        None
    }
}

/// The display glyph of a line.
pub open spec fn spec_xiang_text(y: Yao) -> Seq<char> {
    match y {
        Yao::YinChanging => "⚋ x"@,
        Yao::YangStatic => "⚊"@,
        Yao::YinStatic => "⚋"@,
        Yao::YangChanging => "⚊ o"@,
    }
}

impl Yao {
    /// The display glyph of the line.
    pub fn xiang(&self) -> (t: &'static str)
        ensures
            t@ == spec_xiang_text(*self),
    {
        match self {
            Yao::YinChanging => "⚋ x",
            Yao::YangStatic => "⚊",
            Yao::YinStatic => "⚋",
            Yao::YangChanging => "⚊ o",
        }
    }

    /// Whether the line is changing.
    pub fn is_changing(&self) -> (b: bool)
        ensures
            b == spec_is_changing(*self),
    {
        match self {
            Yao::YinChanging | Yao::YangChanging => true,
            Yao::YangStatic | Yao::YinStatic => false,
        }
    }

    /// The key character of the line: `'1'` for Yang, `'2'` for Yin.
    pub fn index_char(&self) -> (c: char)
        ensures
            c == spec_index_char(*self),
    {
        match self {
            Yao::YinChanging | Yao::YinStatic => '2',
            Yao::YangStatic | Yao::YangChanging => '1',
        }
    }

    /// The key character of the line as a one-character string, for building
    /// a hexagram key.
    pub fn index_str(&self) -> (t: &'static str)
        ensures
            t@ == seq![spec_index_char(*self)],
    {
        let t: &'static str = match self {
            Yao::YinChanging | Yao::YinStatic => "2",
            Yao::YangStatic | Yao::YangChanging => "1",
        };
        proof {
            reveal_strlit("1");
            reveal_strlit("2");
            assert(t@ =~= seq![spec_index_char(*self)]);
        }
        t
    }

    /// The line after change: a changing line flips to the static line of
    /// the opposite polarity, a static line stays as it is.
    pub fn to_bian_yao(&self) -> (b: Self)
        ensures
            b == spec_bian_yao(*self),
    {
        match self {
            Yao::YinChanging => Yao::YangStatic,
            Yao::YangChanging => Yao::YinStatic,
            static_yao => *static_yao,
        }
    }

    /// Decode a cast symbol; symbols outside `{'0', '1', '2', '3'}` are
    /// rejected.
    pub fn from_char(c: char) -> (r: Option<Self>)
        ensures
            r == spec_yao_of_char(c),
    {
        match c {
            '0' => Some(Yao::YinChanging),
            '1' => Some(Yao::YangStatic),
            '2' => Some(Yao::YinStatic),
            '3' => Some(Yao::YangChanging),
            _ => None,
        }
    }
}

/// The changed lines derived from a sequence of primary lines.
pub open spec fn spec_bian_lines(ys: Seq<Yao>) -> Seq<Yao> {
    ys.map_values(|y: Yao| spec_bian_yao(y))
}

/// The hexagram key of a sequence of lines: one key character per line.
pub open spec fn spec_key_of(ys: Seq<Yao>) -> Seq<char> {
    ys.map_values(|y: Yao| spec_index_char(y))
}

/// Law: for every cast, the changed hexagram has no changing line of its
/// own, and its key differs from the primary key exactly at the positions
/// where the primary line was changing.
pub proof fn lemma_bian_lines(ys: Seq<Yao>)
    ensures
        spec_bian_lines(ys).len() == ys.len(),
        forall|i: int| 0 <= i < ys.len() ==> !spec_is_changing(#[trigger] spec_bian_lines(ys)[i]),
        forall|i: int|
            0 <= i < ys.len() ==> ((#[trigger] spec_key_of(spec_bian_lines(ys))[i])
                != spec_key_of(ys)[i] <==> spec_is_changing(ys[i])),
{
    assert forall|i: int| 0 <= i < ys.len() implies !spec_is_changing(
        #[trigger] spec_bian_lines(ys)[i],
    ) by {
        assert(spec_bian_lines(ys)[i] == spec_bian_yao(ys[i]));
    }
    assert forall|i: int| 0 <= i < ys.len() implies ((#[trigger] spec_key_of(spec_bian_lines(ys))[i])
        != spec_key_of(ys)[i] <==> spec_is_changing(ys[i])) by {
        assert(spec_bian_lines(ys)[i] == spec_bian_yao(ys[i]));
        assert(spec_key_of(spec_bian_lines(ys))[i] == spec_index_char(spec_bian_yao(ys[i])));
        assert(spec_key_of(ys)[i] == spec_index_char(ys[i]));
    }
}

} // verus!
