//! The palace table: the eight palaces with their base trigram keys, branch
//! triples and governing elements, the sixty-four generation keys and display
//! names, and the lookups over them.
//!
//! Palaces are indexed 0 to 7 in the order Qian, Zhen, Kan, Gen, Kun, Xun,
//! Li, Dui; within a palace, generations are indexed 0 (the pure palace
//! hexagram) to 7 (the outermost derivative).

use vstd::prelude::*;

verus! {

use crate::elements::DiZhi;
use crate::elements::WuXing;

/// The base trigram key of palace `p`.
pub open spec fn spec_base_key(p: int) -> Seq<char> {
    if p == 0 {
        "111"@
    } else if p == 1 {
        "122"@
    } else if p == 2 {
        "212"@
    } else if p == 3 {
        "221"@
    } else if p == 4 {
        "222"@
    } else if p == 5 {
        "211"@
    } else if p == 6 {
        "121"@
    } else {
        "112"@
    }
}

/// The governing element of palace `p`.
pub open spec fn spec_palace_element(p: int) -> WuXing {
    if p == 0 {
        WuXing::Jin
    } else if p == 1 {
        WuXing::Mu
    } else if p == 2 {
        WuXing::Shui
    } else if p == 3 {
        WuXing::Tu
    } else if p == 4 {
        WuXing::Tu
    } else if p == 5 {
        WuXing::Mu
    } else if p == 6 {
        WuXing::Huo
    } else {
        WuXing::Jin
    }
}

/// The branch triple used when the inner trigram belongs to palace `p`.
pub open spec fn spec_nei_dizhi(p: int) -> Seq<DiZhi> {
    if p == 0 {
        seq![DiZhi::Zi, DiZhi::Yin, DiZhi::Chen]
    } else if p == 1 {
        seq![DiZhi::Zi, DiZhi::Yin, DiZhi::Chen]
    } else if p == 2 {
        seq![DiZhi::Yin, DiZhi::Chen, DiZhi::Wu]
    } else if p == 3 {
        seq![DiZhi::Chen, DiZhi::Wu, DiZhi::Shen]
    } else if p == 4 {
        seq![DiZhi::Wei, DiZhi::Si, DiZhi::Mao]
    } else if p == 5 {
        seq![DiZhi::Chou, DiZhi::Hai, DiZhi::You]
    } else if p == 6 {
        seq![DiZhi::Mao, DiZhi::Chou, DiZhi::Hai]
    } else {
        seq![DiZhi::Si, DiZhi::Mao, DiZhi::Chou]
    }
}

/// The branch triple used when the outer trigram belongs to palace `p`.
pub open spec fn spec_wai_dizhi(p: int) -> Seq<DiZhi> {
    if p == 0 {
        seq![DiZhi::Wu, DiZhi::Shen, DiZhi::Xu]
    } else if p == 1 {
        seq![DiZhi::Wu, DiZhi::Shen, DiZhi::Xu]
    } else if p == 2 {
        seq![DiZhi::Shen, DiZhi::Xu, DiZhi::Zi]
    } else if p == 3 {
        seq![DiZhi::Xu, DiZhi::Zi, DiZhi::Yin]
    } else if p == 4 {
        seq![DiZhi::Chou, DiZhi::Hai, DiZhi::You]
    } else if p == 5 {
        seq![DiZhi::Wei, DiZhi::Si, DiZhi::Mao]
    } else if p == 6 {
        seq![DiZhi::You, DiZhi::Wei, DiZhi::Si]
    } else {
        seq![DiZhi::Hai, DiZhi::You, DiZhi::Wei]
    }
}

/// The hexagram key of generation `g` of palace `p`.
pub open spec fn spec_gen_key(p: int, g: int) -> Seq<char> {
    if p == 0 {
        if g == 0 {
            "111111"@
        } else if g == 1 {
            "211111"@
        } else if g == 2 {
            "221111"@
        } else if g == 3 {
            "222111"@
        } else if g == 4 {
            "222211"@
        } else if g == 5 {
            "222221"@
        } else if g == 6 {
            "222121"@
        } else {
            "111121"@
        }
    } else if p == 1 {
        if g == 0 {
            "122122"@
        } else if g == 1 {
            "222122"@
        } else if g == 2 {
            "212122"@
        } else if g == 3 {
            "211122"@
        } else if g == 4 {
            "211222"@
        } else if g == 5 {
            "211212"@
        } else if g == 6 {
            "211112"@
        } else {
            "122112"@
        }
    } else if p == 2 {
        if g == 0 {
            "212212"@
        } else if g == 1 {
            "112212"@
        } else if g == 2 {
            "122212"@
        } else if g == 3 {
            "121212"@
        } else if g == 4 {
            "121112"@
        } else if g == 5 {
            "121122"@
        } else if g == 6 {
            "121222"@
        } else {
            "212222"@
        }
    } else if p == 3 {
        if g == 0 {
            "221221"@
        } else if g == 1 {
            "121221"@
        } else if g == 2 {
            "111221"@
        } else if g == 3 {
            "112221"@
        } else if g == 4 {
            "112121"@
        } else if g == 5 {
            "112111"@
        } else if g == 6 {
            "112211"@
        } else {
            "221211"@
        }
    } else if p == 4 {
        if g == 0 {
            "222222"@
        } else if g == 1 {
            "122222"@
        } else if g == 2 {
            "112222"@
        } else if g == 3 {
            "111222"@
        } else if g == 4 {
            "111122"@
        } else if g == 5 {
            "111112"@
        } else if g == 6 {
            "111212"@
        } else {
            "222212"@
        }
    } else if p == 5 {
        if g == 0 {
            "211211"@
        } else if g == 1 {
            "111211"@
        } else if g == 2 {
            "121211"@
        } else if g == 3 {
            "122211"@
        } else if g == 4 {
            "122111"@
        } else if g == 5 {
            "122121"@
        } else if g == 6 {
            "122221"@
        } else {
            "211221"@
        }
    } else if p == 6 {
        if g == 0 {
            "121121"@
        } else if g == 1 {
            "221121"@
        } else if g == 2 {
            "211121"@
        } else if g == 3 {
            "212121"@
        } else if g == 4 {
            "212221"@
        } else if g == 5 {
            "212211"@
        } else if g == 6 {
            "212111"@
        } else {
            "121111"@
        }
    } else {
        if g == 0 {
            "112112"@
        } else if g == 1 {
            "212112"@
        } else if g == 2 {
            "222112"@
        } else if g == 3 {
            "221112"@
        } else if g == 4 {
            "221212"@
        } else if g == 5 {
            "221222"@
        } else if g == 6 {
            "221122"@
        } else {
            "112122"@
        }
    }
}

/// The display name of generation `g` of palace `p`.
pub open spec fn spec_gen_name(p: int, g: int) -> Seq<char> {
    if p == 0 {
        if g == 0 {
            "乾为天䷀(六冲)"@
        } else if g == 1 {
            "天风姤䷫"@
        } else if g == 2 {
            "天山遁䷠"@
        } else if g == 3 {
            "天地否䷋(六合)"@
        } else if g == 4 {
            "风地观䷓"@
        } else if g == 5 {
            "山地剥䷖"@
        } else if g == 6 {
            "火地晋䷢"@
        } else {
            "火天大有䷍"@
        }
    } else if p == 1 {
        if g == 0 {
            "震为雷䷲(六冲)"@
        } else if g == 1 {
            "雷地豫䷏(六合)"@
        } else if g == 2 {
            "雷水解䷧"@
        } else if g == 3 {
            "雷风恒䷟"@
        } else if g == 4 {
            "地风升䷭"@
        } else if g == 5 {
            "水风井䷯"@
        } else if g == 6 {
            "泽风大过䷛"@
        } else {
            "泽雷随䷐"@
        }
    } else if p == 2 {
        if g == 0 {
            "坎为水䷜(六冲)"@
        } else if g == 1 {
            "水泽节䷻(六合)"@
        } else if g == 2 {
            "水雷屯䷂"@
        } else if g == 3 {
            "水火既济䷾"@
        } else if g == 4 {
            "泽火革䷰"@
        } else if g == 5 {
            "雷火丰䷶"@
        } else if g == 6 {
            "地火明夷䷣"@
        } else {
            "地水师䷆"@
        }
    } else if p == 3 {
        if g == 0 {
            "艮为山䷳(六冲)"@
        } else if g == 1 {
            "山火贲䷕(六合)"@
        } else if g == 2 {
            "山天大畜䷙"@
        } else if g == 3 {
            "山泽损䷨"@
        } else if g == 4 {
            "火泽睽䷥"@
        } else if g == 5 {
            "天泽履䷉"@
        } else if g == 6 {
            "风泽中孚䷼"@
        } else {
            "风山渐䷴"@
        }
    } else if p == 4 {
        if g == 0 {
            "坤为地䷁(六冲)"@
        } else if g == 1 {
            "地雷复䷗(六合)"@
        } else if g == 2 {
            "地泽临䷒"@
        } else if g == 3 {
            "地天泰䷊(六合)"@
        } else if g == 4 {
            "雷天大壮䷡(六冲)"@
        } else if g == 5 {
            "泽天夬䷪"@
        } else if g == 6 {
            "水天需䷄"@
        } else {
            "水地比䷇"@
        }
    } else if p == 5 {
        if g == 0 {
            "巽为风䷸(六冲)"@
        } else if g == 1 {
            "风天小畜䷈"@
        } else if g == 2 {
            "风火家人䷤"@
        } else if g == 3 {
            "风雷益䷩"@
        } else if g == 4 {
            "天雷无妄䷘(六冲)"@
        } else if g == 5 {
            "火雷噬嗑䷔"@
        } else if g == 6 {
            "山雷颐䷚"@
        } else {
            "山风蛊䷑"@
        }
    } else if p == 6 {
        if g == 0 {
            "离为火䷝(六冲)"@
        } else if g == 1 {
            "火山旅䷷(六合)"@
        } else if g == 2 {
            "火风鼎䷱"@
        } else if g == 3 {
            "火水未济䷿"@
        } else if g == 4 {
            "山水蒙䷃"@
        } else if g == 5 {
            "风水涣䷺"@
        } else if g == 6 {
            "天水讼䷅"@
        } else {
            "天火同人䷌"@
        }
    } else {
        if g == 0 {
            "兑为泽䷹(六冲)"@
        } else if g == 1 {
            "泽水困䷮(六合)"@
        } else if g == 2 {
            "泽地萃䷬"@
        } else if g == 3 {
            "泽山咸䷞"@
        } else if g == 4 {
            "水山蹇䷦"@
        } else if g == 5 {
            "地山谦䷎"@
        } else if g == 6 {
            "雷山小过䷽"@
        } else {
            "雷泽归妹䷵"@
        }
    }
}

/// The base trigram key of palace `p`.
pub fn palace_base_key(p: usize) -> (k: &'static str)
    requires
        p < 8,
    ensures
        k@ == spec_base_key(p as int),
{
    match p {
        0 => "111",
        1 => "122",
        2 => "212",
        3 => "221",
        4 => "222",
        5 => "211",
        6 => "121",
        _ => "112",
    }
}

/// The governing element of palace `p`.
pub fn palace_element_of(p: usize) -> (e: WuXing)
    requires
        p < 8,
    ensures
        e == spec_palace_element(p as int),
{
    match p {
        0 => WuXing::Jin,
        1 => WuXing::Mu,
        2 => WuXing::Shui,
        3 => WuXing::Tu,
        4 => WuXing::Tu,
        5 => WuXing::Mu,
        6 => WuXing::Huo,
        _ => WuXing::Jin,
    }
}

/// Branch `j` of the inner-context triple of palace `p`.
pub fn palace_nei_dizhi(p: usize, j: usize) -> (d: DiZhi)
    requires
        p < 8,
        j < 3,
    ensures
        d == spec_nei_dizhi(p as int)[j as int],
{
    match (p, j) {
        (0, 0) => DiZhi::Zi,
        (0, 1) => DiZhi::Yin,
        (0, 2) => DiZhi::Chen,
        (1, 0) => DiZhi::Zi,
        (1, 1) => DiZhi::Yin,
        (1, 2) => DiZhi::Chen,
        (2, 0) => DiZhi::Yin,
        (2, 1) => DiZhi::Chen,
        (2, 2) => DiZhi::Wu,
        (3, 0) => DiZhi::Chen,
        (3, 1) => DiZhi::Wu,
        (3, 2) => DiZhi::Shen,
        (4, 0) => DiZhi::Wei,
        (4, 1) => DiZhi::Si,
        (4, 2) => DiZhi::Mao,
        (5, 0) => DiZhi::Chou,
        (5, 1) => DiZhi::Hai,
        (5, 2) => DiZhi::You,
        (6, 0) => DiZhi::Mao,
        (6, 1) => DiZhi::Chou,
        (6, 2) => DiZhi::Hai,
        (7, 0) => DiZhi::Si,
        (7, 1) => DiZhi::Mao,
        _ => DiZhi::Chou,
    }
}

/// Branch `j` of the outer-context triple of palace `p`.
pub fn palace_wai_dizhi(p: usize, j: usize) -> (d: DiZhi)
    requires
        p < 8,
        j < 3,
    ensures
        d == spec_wai_dizhi(p as int)[j as int],
{
    match (p, j) {
        (0, 0) => DiZhi::Wu,
        (0, 1) => DiZhi::Shen,
        (0, 2) => DiZhi::Xu,
        (1, 0) => DiZhi::Wu,
        (1, 1) => DiZhi::Shen,
        (1, 2) => DiZhi::Xu,
        (2, 0) => DiZhi::Shen,
        (2, 1) => DiZhi::Xu,
        (2, 2) => DiZhi::Zi,
        (3, 0) => DiZhi::Xu,
        (3, 1) => DiZhi::Zi,
        (3, 2) => DiZhi::Yin,
        (4, 0) => DiZhi::Chou,
        (4, 1) => DiZhi::Hai,
        (4, 2) => DiZhi::You,
        (5, 0) => DiZhi::Wei,
        (5, 1) => DiZhi::Si,
        (5, 2) => DiZhi::Mao,
        (6, 0) => DiZhi::You,
        (6, 1) => DiZhi::Wei,
        (6, 2) => DiZhi::Si,
        (7, 0) => DiZhi::Hai,
        (7, 1) => DiZhi::You,
        _ => DiZhi::Wei,
    }
}

/// The hexagram key of generation `g` of palace `p`.
pub fn generation_key(p: usize, g: usize) -> (k: &'static str)
    requires
        p < 8,
        g < 8,
    ensures
        k@ == spec_gen_key(p as int, g as int),
{
    match (p, g) {
        (0, 0) => "111111",
        (0, 1) => "211111",
        (0, 2) => "221111",
        (0, 3) => "222111",
        (0, 4) => "222211",
        (0, 5) => "222221",
        (0, 6) => "222121",
        (0, 7) => "111121",
        (1, 0) => "122122",
        (1, 1) => "222122",
        (1, 2) => "212122",
        (1, 3) => "211122",
        (1, 4) => "211222",
        (1, 5) => "211212",
        (1, 6) => "211112",
        (1, 7) => "122112",
        (2, 0) => "212212",
        (2, 1) => "112212",
        (2, 2) => "122212",
        (2, 3) => "121212",
        (2, 4) => "121112",
        (2, 5) => "121122",
        (2, 6) => "121222",
        (2, 7) => "212222",
        (3, 0) => "221221",
        (3, 1) => "121221",
        (3, 2) => "111221",
        (3, 3) => "112221",
        (3, 4) => "112121",
        (3, 5) => "112111",
        (3, 6) => "112211",
        (3, 7) => "221211",
        (4, 0) => "222222",
        (4, 1) => "122222",
        (4, 2) => "112222",
        (4, 3) => "111222",
        (4, 4) => "111122",
        (4, 5) => "111112",
        (4, 6) => "111212",
        (4, 7) => "222212",
        (5, 0) => "211211",
        (5, 1) => "111211",
        (5, 2) => "121211",
        (5, 3) => "122211",
        (5, 4) => "122111",
        (5, 5) => "122121",
        (5, 6) => "122221",
        (5, 7) => "211221",
        (6, 0) => "121121",
        (6, 1) => "221121",
        (6, 2) => "211121",
        (6, 3) => "212121",
        (6, 4) => "212221",
        (6, 5) => "212211",
        (6, 6) => "212111",
        (6, 7) => "121111",
        (7, 0) => "112112",
        (7, 1) => "212112",
        (7, 2) => "222112",
        (7, 3) => "221112",
        (7, 4) => "221212",
        (7, 5) => "221222",
        (7, 6) => "221122",
        _ => "112122",
    }
}

/// The display name of generation `g` of palace `p`.
pub fn generation_name(p: usize, g: usize) -> (k: &'static str)
    requires
        p < 8,
        g < 8,
    ensures
        k@ == spec_gen_name(p as int, g as int),
{
    match (p, g) {
        (0, 0) => "乾为天䷀(六冲)",
        (0, 1) => "天风姤䷫",
        (0, 2) => "天山遁䷠",
        (0, 3) => "天地否䷋(六合)",
        (0, 4) => "风地观䷓",
        (0, 5) => "山地剥䷖",
        (0, 6) => "火地晋䷢",
        (0, 7) => "火天大有䷍",
        (1, 0) => "震为雷䷲(六冲)",
        (1, 1) => "雷地豫䷏(六合)",
        (1, 2) => "雷水解䷧",
        (1, 3) => "雷风恒䷟",
        (1, 4) => "地风升䷭",
        (1, 5) => "水风井䷯",
        (1, 6) => "泽风大过䷛",
        (1, 7) => "泽雷随䷐",
        (2, 0) => "坎为水䷜(六冲)",
        (2, 1) => "水泽节䷻(六合)",
        (2, 2) => "水雷屯䷂",
        (2, 3) => "水火既济䷾",
        (2, 4) => "泽火革䷰",
        (2, 5) => "雷火丰䷶",
        (2, 6) => "地火明夷䷣",
        (2, 7) => "地水师䷆",
        (3, 0) => "艮为山䷳(六冲)",
        (3, 1) => "山火贲䷕(六合)",
        (3, 2) => "山天大畜䷙",
        (3, 3) => "山泽损䷨",
        (3, 4) => "火泽睽䷥",
        (3, 5) => "天泽履䷉",
        (3, 6) => "风泽中孚䷼",
        (3, 7) => "风山渐䷴",
        (4, 0) => "坤为地䷁(六冲)",
        (4, 1) => "地雷复䷗(六合)",
        (4, 2) => "地泽临䷒",
        (4, 3) => "地天泰䷊(六合)",
        (4, 4) => "雷天大壮䷡(六冲)",
        (4, 5) => "泽天夬䷪",
        (4, 6) => "水天需䷄",
        (4, 7) => "水地比䷇",
        (5, 0) => "巽为风䷸(六冲)",
        (5, 1) => "风天小畜䷈",
        (5, 2) => "风火家人䷤",
        (5, 3) => "风雷益䷩",
        (5, 4) => "天雷无妄䷘(六冲)",
        (5, 5) => "火雷噬嗑䷔",
        (5, 6) => "山雷颐䷚",
        (5, 7) => "山风蛊䷑",
        (6, 0) => "离为火䷝(六冲)",
        (6, 1) => "火山旅䷷(六合)",
        (6, 2) => "火风鼎䷱",
        (6, 3) => "火水未济䷿",
        (6, 4) => "山水蒙䷃",
        (6, 5) => "风水涣䷺",
        (6, 6) => "天水讼䷅",
        (6, 7) => "天火同人䷌",
        (7, 0) => "兑为泽䷹(六冲)",
        (7, 1) => "泽水困䷮(六合)",
        (7, 2) => "泽地萃䷬",
        (7, 3) => "泽山咸䷞",
        (7, 4) => "水山蹇䷦",
        (7, 5) => "地山谦䷎",
        (7, 6) => "雷山小过䷽",
        _ => "雷泽归妹䷵",
    }
}

/// Character-wise string equality, decided over the views.
pub fn key_eq(a: &str, b: &str) -> (r: bool)
    ensures
        r == (a@ == b@),
{
    let na = a.unicode_len();
    let nb = b.unicode_len();
    if na != nb {
        return false;
    }
    let mut i: usize = 0;
    while i < na
        invariant
            na == a@.len(),
            na == b@.len(),
            i <= na,
            forall|j: int| 0 <= j < i ==> a@[j] == b@[j],
        decreases na - i,
    {
        if a.get_char(i) != b.get_char(i) {
            return false;
        }
        i = i + 1;
    }
    proof {
        assert(a@ =~= b@);
    }
    true
}

/// The palace whose base trigram key is `k`, if any.
pub open spec fn spec_trigram_palace(k: Seq<char>) -> Option<int> {
    if k == spec_base_key(0) {
        Some(0int)
    } else if k == spec_base_key(1) {
        Some(1int)
    } else if k == spec_base_key(2) {
        Some(2int)
    } else if k == spec_base_key(3) {
        Some(3int)
    } else if k == spec_base_key(4) {
        Some(4int)
    } else if k == spec_base_key(5) {
        Some(5int)
    } else if k == spec_base_key(6) {
        Some(6int)
    } else if k == spec_base_key(7) {
        Some(7int)
    } else {
        None
    }
}

/// Find the palace whose base trigram key is `k`.
pub fn find_trigram_palace(k: &str) -> (r: Option<usize>)
    ensures
        match r {
            Some(p) => p < 8 && spec_trigram_palace(k@) == Some(p as int),
            None => spec_trigram_palace(k@) is None,
        },
{
    let mut p: usize = 0;
    while p < 8
        invariant
            p <= 8,
            forall|q: int| 0 <= q < p ==> spec_base_key(q) != k@,
        decreases 8 - p,
    {
        if key_eq(palace_base_key(p), k) {
            return Some(p);
        }
        p = p + 1;
    }
    None
}

/// A key character is one of the two polarity digits.
pub open spec fn spec_valid_key_char(c: char) -> bool {
    c == '1' || c == '2'
}

/// A well-formed trigram key: three polarity digits.
pub open spec fn spec_valid_trigram_key(k: Seq<char>) -> bool {
    k.len() == 3 && spec_valid_key_char(k[0]) && spec_valid_key_char(k[1]) && spec_valid_key_char(
        k[2],
    )
}

/// Law: the eight base trigram keys cover every well-formed trigram key, so
/// a trigram lookup on a well-formed key never misses.
pub proof fn lemma_trigram_palace_total(k: Seq<char>)
    requires
        spec_valid_trigram_key(k),
    ensures
        spec_trigram_palace(k) is Some,
{
    reveal_strlit("111");
    reveal_strlit("122");
    reveal_strlit("212");
    reveal_strlit("221");
    reveal_strlit("222");
    reveal_strlit("211");
    reveal_strlit("121");
    reveal_strlit("112");
    if k[0] == '1' {
        if k[1] == '1' {
            if k[2] == '1' {
                assert(k =~= "111"@);
            } else {
                assert(k =~= "112"@);
            }
        } else {
            if k[2] == '1' {
                assert(k =~= "121"@);
            } else {
                assert(k =~= "122"@);
            }
        }
    } else {
        if k[1] == '1' {
            if k[2] == '1' {
                assert(k =~= "211"@);
            } else {
                assert(k =~= "212"@);
            }
        } else {
            if k[2] == '1' {
                assert(k =~= "221"@);
            } else {
                assert(k =~= "222"@);
            }
        }
    }
}

/// The first position, in palace-major order from flat position `i` on, of a
/// generation whose key is `k`.
pub open spec fn spec_find_gen_from(k: Seq<char>, i: int) -> Option<int>
    decreases 64 - i,
{
    if i < 0 || i >= 64 {
        None
    } else if spec_gen_key(i / 8, i % 8) == k {
        Some(i)
    } else {
        spec_find_gen_from(k, i + 1)
    }
}

/// The first generation, in palace-major order, whose key is `k`.
pub open spec fn spec_find_gen(k: Seq<char>) -> Option<int> {
    spec_find_gen_from(k, 0)
}

/// Find the governing palace of the hexagram whose key is `gua_index` and
/// return its element; `None` when the key is not one of the sixty-four.
pub fn find_palace_element(gua_index: &str) -> (r: Option<WuXing>)
    ensures
        match r {
            Some(e) => spec_find_gen(gua_index@) matches Some(i) && e == spec_palace_element(
                i / 8,
            ),
            None => spec_find_gen(gua_index@) is None,
        },
{
    let mut i: usize = 0;
    while i < 64
        invariant
            i <= 64,
            spec_find_gen(gua_index@) == spec_find_gen_from(gua_index@, i as int),
        decreases 64 - i,
    {
        let p = i / 8;
        let g = i % 8;
        if key_eq(generation_key(p, g), gua_index) {
            return Some(palace_element_of(p));
        }
        i = i + 1;
    }
    None
}

/// Find the display name of the hexagram whose key is `gua_index`; `None`
/// when the key is not one of the sixty-four.
pub fn find_palace_name(gua_index: &str) -> (r: Option<&'static str>)
    ensures
        match r {
            Some(n) => spec_find_gen(gua_index@) matches Some(i) && n@ == spec_gen_name(
                i / 8,
                i % 8,
            ),
            None => spec_find_gen(gua_index@) is None,
        },
{
    let mut i: usize = 0;
    while i < 64
        invariant
            i <= 64,
            spec_find_gen(gua_index@) == spec_find_gen_from(gua_index@, i as int),
        decreases 64 - i,
    {
        let p = i / 8;
        let g = i % 8;
        if key_eq(generation_key(p, g), gua_index) {
            return Some(generation_name(p, g));
        }
        i = i + 1;
    }
    None
}

/// A well-formed hexagram key: six polarity digits.
pub open spec fn spec_valid_gua_key(k: Seq<char>) -> bool {
    k.len() == 6 && (forall|i: int| 0 <= i < 6 ==> spec_valid_key_char(#[trigger] k[i]))
}

/// The search from position `j` on succeeds when some position at or after
/// `j` holds the key.
proof fn lemma_find_gen_hits(k: Seq<char>, j: int, i: int)
    requires
        0 <= j <= i < 64,
        spec_gen_key(i / 8, i % 8) == k,
    ensures
        spec_find_gen_from(k, j) is Some,
    decreases i - j,
{
    if j < i && spec_gen_key(j / 8, j % 8) != k {
        lemma_find_gen_hits(k, j + 1, i);
    }
}

/// Law: the sixty-four generation keys cover every well-formed hexagram
/// key, so a key computed from any six lines always resolves to a palace
/// and a display name.
#[verifier::rlimit(40)]
pub proof fn lemma_gua_key_universe_closed(k: Seq<char>)
    requires
        spec_valid_gua_key(k),
    ensures
        spec_find_gen(k) is Some,
{
    reveal_strlit("111111");
    reveal_strlit("111112");
    reveal_strlit("111121");
    reveal_strlit("111122");
    reveal_strlit("111211");
    reveal_strlit("111212");
    reveal_strlit("111221");
    reveal_strlit("111222");
    reveal_strlit("112111");
    reveal_strlit("112112");
    reveal_strlit("112121");
    reveal_strlit("112122");
    reveal_strlit("112211");
    reveal_strlit("112212");
    reveal_strlit("112221");
    reveal_strlit("112222");
    reveal_strlit("121111");
    reveal_strlit("121112");
    reveal_strlit("121121");
    reveal_strlit("121122");
    reveal_strlit("121211");
    reveal_strlit("121212");
    reveal_strlit("121221");
    reveal_strlit("121222");
    reveal_strlit("122111");
    reveal_strlit("122112");
    reveal_strlit("122121");
    reveal_strlit("122122");
    reveal_strlit("122211");
    reveal_strlit("122212");
    reveal_strlit("122221");
    reveal_strlit("122222");
    reveal_strlit("211111");
    reveal_strlit("211112");
    reveal_strlit("211121");
    reveal_strlit("211122");
    reveal_strlit("211211");
    reveal_strlit("211212");
    reveal_strlit("211221");
    reveal_strlit("211222");
    reveal_strlit("212111");
    reveal_strlit("212112");
    reveal_strlit("212121");
    reveal_strlit("212122");
    reveal_strlit("212211");
    reveal_strlit("212212");
    reveal_strlit("212221");
    reveal_strlit("212222");
    reveal_strlit("221111");
    reveal_strlit("221112");
    reveal_strlit("221121");
    reveal_strlit("221122");
    reveal_strlit("221211");
    reveal_strlit("221212");
    reveal_strlit("221221");
    reveal_strlit("221222");
    reveal_strlit("222111");
    reveal_strlit("222112");
    reveal_strlit("222121");
    reveal_strlit("222122");
    reveal_strlit("222211");
    reveal_strlit("222212");
    reveal_strlit("222221");
    reveal_strlit("222222");
    if k[0] == '1' {
        if k[1] == '1' {
            if k[2] == '1' {
                if k[3] == '1' {
                    if k[4] == '1' {
                        if k[5] == '1' {
                            assert(k =~= "111111"@);
                            lemma_find_gen_hits(k, 0, 0);
                        } else {
                            assert(k[5] == '2');
                            assert(k =~= "111112"@);
                            lemma_find_gen_hits(k, 0, 37);
                        }
                    } else {
                        assert(k[4] == '2');
                        if k[5] == '1' {
                            assert(k =~= "111121"@);
                            lemma_find_gen_hits(k, 0, 7);
                        } else {
                            assert(k[5] == '2');
                            assert(k =~= "111122"@);
                            lemma_find_gen_hits(k, 0, 36);
                        }
                    }
                } else {
                    assert(k[3] == '2');
                    if k[4] == '1' {
                        if k[5] == '1' {
                            assert(k =~= "111211"@);
                            lemma_find_gen_hits(k, 0, 41);
                        } else {
                            assert(k[5] == '2');
                            assert(k =~= "111212"@);
                            lemma_find_gen_hits(k, 0, 38);
                        }
                    } else {
                        assert(k[4] == '2');
                        if k[5] == '1' {
                            assert(k =~= "111221"@);
                            lemma_find_gen_hits(k, 0, 26);
                        } else {
                            assert(k[5] == '2');
                            assert(k =~= "111222"@);
                            lemma_find_gen_hits(k, 0, 35);
                        }
                    }
                }
            } else {
                assert(k[2] == '2');
                if k[3] == '1' {
                    if k[4] == '1' {
                        if k[5] == '1' {
                            assert(k =~= "112111"@);
                            lemma_find_gen_hits(k, 0, 29);
                        } else {
                            assert(k[5] == '2');
                            assert(k =~= "112112"@);
                            lemma_find_gen_hits(k, 0, 56);
                        }
                    } else {
                        assert(k[4] == '2');
                        if k[5] == '1' {
                            assert(k =~= "112121"@);
                            lemma_find_gen_hits(k, 0, 28);
                        } else {
                            assert(k[5] == '2');
                            assert(k =~= "112122"@);
                            lemma_find_gen_hits(k, 0, 63);
                        }
                    }
                } else {
                    assert(k[3] == '2');
                    if k[4] == '1' {
                        if k[5] == '1' {
                            assert(k =~= "112211"@);
                            lemma_find_gen_hits(k, 0, 30);
                        } else {
                            assert(k[5] == '2');
                            assert(k =~= "112212"@);
                            lemma_find_gen_hits(k, 0, 17);
                        }
                    } else {
                        assert(k[4] == '2');
                        if k[5] == '1' {
                            assert(k =~= "112221"@);
                            lemma_find_gen_hits(k, 0, 27);
                        } else {
                            assert(k[5] == '2');
                            assert(k =~= "112222"@);
                            lemma_find_gen_hits(k, 0, 34);
                        }
                    }
                }
            }
        } else {
            assert(k[1] == '2');
            if k[2] == '1' {
                if k[3] == '1' {
                    if k[4] == '1' {
                        if k[5] == '1' {
                            assert(k =~= "121111"@);
                            lemma_find_gen_hits(k, 0, 55);
                        } else {
                            assert(k[5] == '2');
                            assert(k =~= "121112"@);
                            lemma_find_gen_hits(k, 0, 20);
                        }
                    } else {
                        assert(k[4] == '2');
                        if k[5] == '1' {
                            assert(k =~= "121121"@);
                            lemma_find_gen_hits(k, 0, 48);
                        } else {
                            assert(k[5] == '2');
                            assert(k =~= "121122"@);
                            lemma_find_gen_hits(k, 0, 21);
                        }
                    }
                } else {
                    assert(k[3] == '2');
                    if k[4] == '1' {
                        if k[5] == '1' {
                            assert(k =~= "121211"@);
                            lemma_find_gen_hits(k, 0, 42);
                        } else {
                            assert(k[5] == '2');
                            assert(k =~= "121212"@);
                            lemma_find_gen_hits(k, 0, 19);
                        }
                    } else {
                        assert(k[4] == '2');
                        if k[5] == '1' {
                            assert(k =~= "121221"@);
                            lemma_find_gen_hits(k, 0, 25);
                        } else {
                            assert(k[5] == '2');
                            assert(k =~= "121222"@);
                            lemma_find_gen_hits(k, 0, 22);
                        }
                    }
                }
            } else {
                assert(k[2] == '2');
                if k[3] == '1' {
                    if k[4] == '1' {
                        if k[5] == '1' {
                            assert(k =~= "122111"@);
                            lemma_find_gen_hits(k, 0, 44);
                        } else {
                            assert(k[5] == '2');
                            assert(k =~= "122112"@);
                            lemma_find_gen_hits(k, 0, 15);
                        }
                    } else {
                        assert(k[4] == '2');
                        if k[5] == '1' {
                            assert(k =~= "122121"@);
                            lemma_find_gen_hits(k, 0, 45);
                        } else {
                            assert(k[5] == '2');
                            assert(k =~= "122122"@);
                            lemma_find_gen_hits(k, 0, 8);
                        }
                    }
                } else {
                    assert(k[3] == '2');
                    if k[4] == '1' {
                        if k[5] == '1' {
                            assert(k =~= "122211"@);
                            lemma_find_gen_hits(k, 0, 43);
                        } else {
                            assert(k[5] == '2');
                            assert(k =~= "122212"@);
                            lemma_find_gen_hits(k, 0, 18);
                        }
                    } else {
                        assert(k[4] == '2');
                        if k[5] == '1' {
                            assert(k =~= "122221"@);
                            lemma_find_gen_hits(k, 0, 46);
                        } else {
                            assert(k[5] == '2');
                            assert(k =~= "122222"@);
                            lemma_find_gen_hits(k, 0, 33);
                        }
                    }
                }
            }
        }
    } else {
        assert(k[0] == '2');
        if k[1] == '1' {
            if k[2] == '1' {
                if k[3] == '1' {
                    if k[4] == '1' {
                        if k[5] == '1' {
                            assert(k =~= "211111"@);
                            lemma_find_gen_hits(k, 0, 1);
                        } else {
                            assert(k[5] == '2');
                            assert(k =~= "211112"@);
                            lemma_find_gen_hits(k, 0, 14);
                        }
                    } else {
                        assert(k[4] == '2');
                        if k[5] == '1' {
                            assert(k =~= "211121"@);
                            lemma_find_gen_hits(k, 0, 50);
                        } else {
                            assert(k[5] == '2');
                            assert(k =~= "211122"@);
                            lemma_find_gen_hits(k, 0, 11);
                        }
                    }
                } else {
                    assert(k[3] == '2');
                    if k[4] == '1' {
                        if k[5] == '1' {
                            assert(k =~= "211211"@);
                            lemma_find_gen_hits(k, 0, 40);
                        } else {
                            assert(k[5] == '2');
                            assert(k =~= "211212"@);
                            lemma_find_gen_hits(k, 0, 13);
                        }
                    } else {
                        assert(k[4] == '2');
                        if k[5] == '1' {
                            assert(k =~= "211221"@);
                            lemma_find_gen_hits(k, 0, 47);
                        } else {
                            assert(k[5] == '2');
                            assert(k =~= "211222"@);
                            lemma_find_gen_hits(k, 0, 12);
                        }
                    }
                }
            } else {
                assert(k[2] == '2');
                if k[3] == '1' {
                    if k[4] == '1' {
                        if k[5] == '1' {
                            assert(k =~= "212111"@);
                            lemma_find_gen_hits(k, 0, 54);
                        } else {
                            assert(k[5] == '2');
                            assert(k =~= "212112"@);
                            lemma_find_gen_hits(k, 0, 57);
                        }
                    } else {
                        assert(k[4] == '2');
                        if k[5] == '1' {
                            assert(k =~= "212121"@);
                            lemma_find_gen_hits(k, 0, 51);
                        } else {
                            assert(k[5] == '2');
                            assert(k =~= "212122"@);
                            lemma_find_gen_hits(k, 0, 10);
                        }
                    }
                } else {
                    assert(k[3] == '2');
                    if k[4] == '1' {
                        if k[5] == '1' {
                            assert(k =~= "212211"@);
                            lemma_find_gen_hits(k, 0, 53);
                        } else {
                            assert(k[5] == '2');
                            assert(k =~= "212212"@);
                            lemma_find_gen_hits(k, 0, 16);
                        }
                    } else {
                        assert(k[4] == '2');
                        if k[5] == '1' {
                            assert(k =~= "212221"@);
                            lemma_find_gen_hits(k, 0, 52);
                        } else {
                            assert(k[5] == '2');
                            assert(k =~= "212222"@);
                            lemma_find_gen_hits(k, 0, 23);
                        }
                    }
                }
            }
        } else {
            assert(k[1] == '2');
            if k[2] == '1' {
                if k[3] == '1' {
                    if k[4] == '1' {
                        if k[5] == '1' {
                            assert(k =~= "221111"@);
                            lemma_find_gen_hits(k, 0, 2);
                        } else {
                            assert(k[5] == '2');
                            assert(k =~= "221112"@);
                            lemma_find_gen_hits(k, 0, 59);
                        }
                    } else {
                        assert(k[4] == '2');
                        if k[5] == '1' {
                            assert(k =~= "221121"@);
                            lemma_find_gen_hits(k, 0, 49);
                        } else {
                            assert(k[5] == '2');
                            assert(k =~= "221122"@);
                            lemma_find_gen_hits(k, 0, 62);
                        }
                    }
                } else {
                    assert(k[3] == '2');
                    if k[4] == '1' {
                        if k[5] == '1' {
                            assert(k =~= "221211"@);
                            lemma_find_gen_hits(k, 0, 31);
                        } else {
                            assert(k[5] == '2');
                            assert(k =~= "221212"@);
                            lemma_find_gen_hits(k, 0, 60);
                        }
                    } else {
                        assert(k[4] == '2');
                        if k[5] == '1' {
                            assert(k =~= "221221"@);
                            lemma_find_gen_hits(k, 0, 24);
                        } else {
                            assert(k[5] == '2');
                            assert(k =~= "221222"@);
                            lemma_find_gen_hits(k, 0, 61);
                        }
                    }
                }
            } else {
                assert(k[2] == '2');
                if k[3] == '1' {
                    if k[4] == '1' {
                        if k[5] == '1' {
                            assert(k =~= "222111"@);
                            lemma_find_gen_hits(k, 0, 3);
                        } else {
                            assert(k[5] == '2');
                            assert(k =~= "222112"@);
                            lemma_find_gen_hits(k, 0, 58);
                        }
                    } else {
                        assert(k[4] == '2');
                        if k[5] == '1' {
                            assert(k =~= "222121"@);
                            lemma_find_gen_hits(k, 0, 6);
                        } else {
                            assert(k[5] == '2');
                            assert(k =~= "222122"@);
                            lemma_find_gen_hits(k, 0, 9);
                        }
                    }
                } else {
                    assert(k[3] == '2');
                    if k[4] == '1' {
                        if k[5] == '1' {
                            assert(k =~= "222211"@);
                            lemma_find_gen_hits(k, 0, 4);
                        } else {
                            assert(k[5] == '2');
                            assert(k =~= "222212"@);
                            lemma_find_gen_hits(k, 0, 39);
                        }
                    } else {
                        assert(k[4] == '2');
                        if k[5] == '1' {
                            assert(k =~= "222221"@);
                            lemma_find_gen_hits(k, 0, 5);
                        } else {
                            assert(k[5] == '2');
                            assert(k =~= "222222"@);
                            lemma_find_gen_hits(k, 0, 32);
                        }
                    }
                }
            }
        }
    }
}

} // verus!
