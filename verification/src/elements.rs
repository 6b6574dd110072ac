//! The five elements (Wu Xing), the twelve earthly branches (Di Zhi), and the
//! pure relation tables between them: clash / combination between branches,
//! generation / domination between elements, and the six-relative
//! classification of a line element against its palace element.

use vstd::prelude::*;

verus! {

/// One of the five elements.
#[derive(Debug, Clone, Copy, PartialEq, Eq, Structural)]
pub enum WuXing {
    Jin,
    Mu,
    Shui,
    Huo,
    Tu,
}

/// One of the twelve earthly branches.
#[derive(Debug, Clone, Copy, PartialEq, Eq, Structural)]
pub enum DiZhi {
    Zi,
    Chou,
    Yin,
    Mao,
    Chen,
    Si,
    Wu,
    Wei,
    Shen,
    You,
    Xu,
    Hai,
}

/// One of the five six-relative labels.
#[derive(Debug, Clone, Copy, PartialEq, Eq, Structural)]
pub enum LiuQin {
    XiongDi,
    ZiSun,
    QiCai,
    GuanGui,
    FuMu,
}

/// A clash or combination relation between two branches.
#[derive(Debug, Clone, Copy, PartialEq, Eq, Structural)]
pub enum ChongHe {
    Chong,
    He,
}

/// A generation or domination relation between two elements.
#[derive(Debug, Clone, Copy, PartialEq, Eq, Structural)]
pub enum ShengKe {
    Sheng,
    Ke,
}

/// The element governed by each branch.
pub open spec fn spec_wuxing_of(d: DiZhi) -> WuXing {
    match d {
        DiZhi::Zi | DiZhi::Hai => WuXing::Shui,
        DiZhi::Yin | DiZhi::Mao => WuXing::Mu,
        DiZhi::Si | DiZhi::Wu => WuXing::Huo,
        DiZhi::Shen | DiZhi::You => WuXing::Jin,
        DiZhi::Chen | DiZhi::Xu | DiZhi::Chou | DiZhi::Wei => WuXing::Tu,
    }
}

impl DiZhi {
    /// The element of this branch.
    pub fn wuxing(&self) -> (w: WuXing)
        ensures
            w == spec_wuxing_of(*self),
    {
        match self {
            DiZhi::Zi | DiZhi::Hai => WuXing::Shui,
            DiZhi::Yin | DiZhi::Mao => WuXing::Mu,
            DiZhi::Si | DiZhi::Wu => WuXing::Huo,
            DiZhi::Shen | DiZhi::You => WuXing::Jin,
            DiZhi::Chen | DiZhi::Xu | DiZhi::Chou | DiZhi::Wei => WuXing::Tu,
        }
    }
}

/// The clash partner of a branch: the six clash pairs pair all twelve
/// branches off with no branch left over.
pub open spec fn spec_chong_partner(d: DiZhi) -> DiZhi {
    match d {
        DiZhi::Zi => DiZhi::Wu,
        DiZhi::Wu => DiZhi::Zi,
        DiZhi::Chou => DiZhi::Wei,
        DiZhi::Wei => DiZhi::Chou,
        DiZhi::Yin => DiZhi::Shen,
        DiZhi::Shen => DiZhi::Yin,
        DiZhi::Mao => DiZhi::You,
        DiZhi::You => DiZhi::Mao,
        DiZhi::Chen => DiZhi::Xu,
        DiZhi::Xu => DiZhi::Chen,
        DiZhi::Si => DiZhi::Hai,
        DiZhi::Hai => DiZhi::Si,
    }
}

/// The combination partner of a branch: the six combination pairs also pair
/// all twelve branches off with no branch left over.
pub open spec fn spec_he_partner(d: DiZhi) -> DiZhi {
    match d {
        DiZhi::Zi => DiZhi::Chou,
        DiZhi::Chou => DiZhi::Zi,
        DiZhi::Yin => DiZhi::Hai,
        DiZhi::Hai => DiZhi::Yin,
        DiZhi::Mao => DiZhi::Xu,
        DiZhi::Xu => DiZhi::Mao,
        DiZhi::Chen => DiZhi::You,
        DiZhi::You => DiZhi::Chen,
        DiZhi::Si => DiZhi::Shen,
        DiZhi::Shen => DiZhi::Si,
        DiZhi::Wu => DiZhi::Wei,
        DiZhi::Wei => DiZhi::Wu,
    }
}

/// The clash / combination relation between two branches, as an unordered
/// pair; a pair that is neither clashing nor combining has no relation.
pub open spec fn spec_chong_he(a: DiZhi, b: DiZhi) -> Option<ChongHe> {
    if b == spec_chong_partner(a) {
        Some(ChongHe::Chong)
    } else if b == spec_he_partner(a) {
        Some(ChongHe::He)
    } else {
        None
    }
}

/// The clash / combination relation between two branches.
pub fn get_chong_he_relation(dizhi1: DiZhi, dizhi2: DiZhi) -> (r: Option<ChongHe>)
    ensures
        r == spec_chong_he(dizhi1, dizhi2),
{
    match (dizhi1, dizhi2) {
        (DiZhi::Zi, DiZhi::Wu)
        | (DiZhi::Wu, DiZhi::Zi)
        | (DiZhi::Chou, DiZhi::Wei)
        | (DiZhi::Wei, DiZhi::Chou)
        | (DiZhi::Yin, DiZhi::Shen)
        | (DiZhi::Shen, DiZhi::Yin)
        | (DiZhi::Mao, DiZhi::You)
        | (DiZhi::You, DiZhi::Mao)
        | (DiZhi::Chen, DiZhi::Xu)
        | (DiZhi::Xu, DiZhi::Chen)
        | (DiZhi::Si, DiZhi::Hai)
        | (DiZhi::Hai, DiZhi::Si) => Some(ChongHe::Chong),
        (DiZhi::Zi, DiZhi::Chou)
        | (DiZhi::Chou, DiZhi::Zi)
        | (DiZhi::Yin, DiZhi::Hai)
        | (DiZhi::Hai, DiZhi::Yin)
        | (DiZhi::Mao, DiZhi::Xu)
        | (DiZhi::Xu, DiZhi::Mao)
        | (DiZhi::Chen, DiZhi::You)
        | (DiZhi::You, DiZhi::Chen)
        | (DiZhi::Si, DiZhi::Shen)
        | (DiZhi::Shen, DiZhi::Si)
        | (DiZhi::Wu, DiZhi::Wei)
        | (DiZhi::Wei, DiZhi::Wu) => Some(ChongHe::He),
        _ => None,
    }
}

/// The generation / domination relation from element `a` to element `b`:
/// `Sheng` when `a` generates `b`, `Ke` when `a` dominates `b`. The order of
/// the arguments matters; see [`lemma_sheng_ke_directional`].
pub open spec fn spec_sheng_ke(a: WuXing, b: WuXing) -> Option<ShengKe> {
    match (a, b) {
        (WuXing::Mu, WuXing::Huo)
        | (WuXing::Huo, WuXing::Tu)
        | (WuXing::Tu, WuXing::Jin)
        | (WuXing::Jin, WuXing::Shui)
        | (WuXing::Shui, WuXing::Mu) => Some(ShengKe::Sheng),
        (WuXing::Mu, WuXing::Tu)
        | (WuXing::Huo, WuXing::Jin)
        | (WuXing::Tu, WuXing::Shui)
        | (WuXing::Jin, WuXing::Mu)
        | (WuXing::Shui, WuXing::Huo) => Some(ShengKe::Ke),
        _ => None,
    }
}

/// The generation / domination relation from `wuxing1` to `wuxing2`.
pub fn get_sheng_ke_relation(wuxing1: WuXing, wuxing2: WuXing) -> (r: Option<ShengKe>)
    ensures
        r == spec_sheng_ke(wuxing1, wuxing2),
{
    match (wuxing1, wuxing2) {
        (WuXing::Mu, WuXing::Huo)
        | (WuXing::Huo, WuXing::Tu)
        | (WuXing::Tu, WuXing::Jin)
        | (WuXing::Jin, WuXing::Shui)
        | (WuXing::Shui, WuXing::Mu) => Some(ShengKe::Sheng),
        (WuXing::Mu, WuXing::Tu)
        | (WuXing::Huo, WuXing::Jin)
        | (WuXing::Tu, WuXing::Shui)
        | (WuXing::Jin, WuXing::Mu)
        | (WuXing::Shui, WuXing::Huo) => Some(ShengKe::Ke),
        _ => None,
    }
}

/// The six-relative label of a line element seen from the palace element:
/// the same element gives Siblings; the palace generating the line gives
/// Offspring; the line generating the palace gives Wealth; the palace
/// dominating the line gives Officialdom; the line dominating the palace
/// gives Parents.
pub open spec fn spec_liu_qin(palace: WuXing, line: WuXing) -> LiuQin {
    if palace == line {
        LiuQin::XiongDi
    } else if spec_sheng_ke(palace, line) == Some(ShengKe::Sheng) {
        LiuQin::ZiSun
    } else if spec_sheng_ke(line, palace) == Some(ShengKe::Sheng) {
        LiuQin::QiCai
    } else if spec_sheng_ke(palace, line) == Some(ShengKe::Ke) {
        LiuQin::GuanGui
    } else {
        LiuQin::FuMu
    }
}

/// The six-relative label of a line element seen from the palace element.
pub fn liu_qin_of(palace: WuXing, line: WuXing) -> (q: LiuQin)
    ensures
        q == spec_liu_qin(palace, line),
{
    if palace == line {
        LiuQin::XiongDi
    } else if get_sheng_ke_relation(palace, line) == Some(ShengKe::Sheng) {
        LiuQin::ZiSun
    } else if get_sheng_ke_relation(line, palace) == Some(ShengKe::Sheng) {
        LiuQin::QiCai
    } else if get_sheng_ke_relation(palace, line) == Some(ShengKe::Ke) {
        LiuQin::GuanGui
    } else {
        LiuQin::FuMu
    }
}

/// Law: the clash / combination lookup is symmetric: as an unordered pair,
/// `(a, b)` and `(b, a)` always carry the same relation.
pub proof fn lemma_chong_he_symmetric(a: DiZhi, b: DiZhi)
    ensures
        spec_chong_he(a, b) == spec_chong_he(b, a),
{
}

/// Law: a branch clashes exactly with its clash partner and combines exactly
/// with its combination partner; both partner maps are involutions without a
/// fixed point, so the twelve branches fall into exactly six clash pairs and
/// exactly six combination pairs, and every other pair has no relation.
pub proof fn lemma_chong_he_partners(a: DiZhi, b: DiZhi)
    ensures
        spec_chong_he(a, b) == Some(ChongHe::Chong) <==> b == spec_chong_partner(a),
        spec_chong_he(a, b) == Some(ChongHe::He) <==> b == spec_he_partner(a),
        spec_chong_partner(spec_chong_partner(a)) == a,
        spec_he_partner(spec_he_partner(a)) == a,
        spec_chong_partner(a) != a,
        spec_he_partner(a) != a,
        spec_chong_partner(a) != spec_he_partner(a),
{
}

/// Law: the generation / domination table is directional. A pair that is
/// related in one order is never related in the other order, so swapping the
/// arguments of a generation test changes the outcome whenever the pair is
/// related at all.
pub proof fn lemma_sheng_ke_directional(a: WuXing, b: WuXing)
    ensures
        spec_sheng_ke(a, b) is Some ==> spec_sheng_ke(b, a) is None,
        a == b ==> spec_sheng_ke(a, b) is None,
{
}

/// Law: the six-relative classification is total and exclusive. For every
/// pair of a palace element and a line element, exactly one of the five
/// categories applies, and the label returned is the one of that category.
pub proof fn lemma_liu_qin_total_exclusive(palace: WuXing, line: WuXing)
    ensures
        spec_liu_qin(palace, line) is XiongDi <==> palace == line,
        spec_liu_qin(palace, line) is ZiSun <==> spec_sheng_ke(palace, line) == Some(
            ShengKe::Sheng,
        ),
        spec_liu_qin(palace, line) is QiCai <==> spec_sheng_ke(line, palace) == Some(
            ShengKe::Sheng,
        ),
        spec_liu_qin(palace, line) is GuanGui <==> spec_sheng_ke(palace, line) == Some(
            ShengKe::Ke,
        ),
        spec_liu_qin(palace, line) is FuMu <==> spec_sheng_ke(line, palace) == Some(ShengKe::Ke),
{
}

/// The display text of an element.
pub open spec fn spec_wuxing_text(x: WuXing) -> Seq<char> {
    match x {
        WuXing::Jin => "金"@,
        WuXing::Mu => "木"@,
        WuXing::Shui => "水"@,
        WuXing::Huo => "火"@,
        WuXing::Tu => "土"@,
    }
}

impl WuXing {
    /// The display text of this value.
    pub fn text(&self) -> (t: &'static str)
        ensures
            t@ == spec_wuxing_text(*self),
    {
        match self {
            WuXing::Jin => "金",
            WuXing::Mu => "木",
            WuXing::Shui => "水",
            WuXing::Huo => "火",
            WuXing::Tu => "土",
        }
    }
}

/// The display text of a branch.
pub open spec fn spec_dizhi_text(x: DiZhi) -> Seq<char> {
    match x {
        DiZhi::Zi => "子"@,
        DiZhi::Chou => "丑"@,
        DiZhi::Yin => "寅"@,
        DiZhi::Mao => "卯"@,
        DiZhi::Chen => "辰"@,
        DiZhi::Si => "巳"@,
        DiZhi::Wu => "午"@,
        DiZhi::Wei => "未"@,
        DiZhi::Shen => "申"@,
        DiZhi::You => "酉"@,
        DiZhi::Xu => "戌"@,
        DiZhi::Hai => "亥"@,
    }
}

impl DiZhi {
    /// The display text of this value.
    pub fn text(&self) -> (t: &'static str)
        ensures
            t@ == spec_dizhi_text(*self),
    {
        match self {
            DiZhi::Zi => "子",
            DiZhi::Chou => "丑",
            DiZhi::Yin => "寅",
            DiZhi::Mao => "卯",
            DiZhi::Chen => "辰",
            DiZhi::Si => "巳",
            DiZhi::Wu => "午",
            DiZhi::Wei => "未",
            DiZhi::Shen => "申",
            DiZhi::You => "酉",
            DiZhi::Xu => "戌",
            DiZhi::Hai => "亥",
        }
    }
}

/// The display text of a six-relative label.
pub open spec fn spec_liuqin_text(x: LiuQin) -> Seq<char> {
    match x {
        LiuQin::XiongDi => "兄弟"@,
        LiuQin::ZiSun => "子孙"@,
        LiuQin::QiCai => "妻财"@,
        LiuQin::GuanGui => "官鬼"@,
        LiuQin::FuMu => "父母"@,
    }
}

impl LiuQin {
    /// The display text of this value.
    pub fn text(&self) -> (t: &'static str)
        ensures
            t@ == spec_liuqin_text(*self),
    {
        match self {
            LiuQin::XiongDi => "兄弟",
            LiuQin::ZiSun => "子孙",
            LiuQin::QiCai => "妻财",
            LiuQin::GuanGui => "官鬼",
            LiuQin::FuMu => "父母",
        }
    }
}

/// The display text of a clash / combination relation.
pub open spec fn spec_chong_he_text(x: ChongHe) -> Seq<char> {
    match x {
        ChongHe::Chong => "冲"@,
        ChongHe::He => "合"@,
    }
}

impl ChongHe {
    /// The display text of this value.
    pub fn text(&self) -> (t: &'static str)
        ensures
            t@ == spec_chong_he_text(*self),
    {
        match self {
            ChongHe::Chong => "冲",
            ChongHe::He => "合",
        }
    }
}

/// The display text of a generation / domination relation.
pub open spec fn spec_sheng_ke_text(x: ShengKe) -> Seq<char> {
    match x {
        ShengKe::Sheng => "生"@,
        ShengKe::Ke => "克"@,
    }
}

impl ShengKe {
    /// The display text of this value.
    pub fn text(&self) -> (t: &'static str)
        ensures
            t@ == spec_sheng_ke_text(*self),
    {
        match self {
            ShengKe::Sheng => "生",
            ShengKe::Ke => "克",
        }
    }
}

/// The branch named by a single branch character, or `None` for any other
/// character.
pub open spec fn spec_dizhi_of_char(c: char) -> Option<DiZhi> {
    if c == '子' {
        Some(DiZhi::Zi)
    } else if c == '丑' {
        Some(DiZhi::Chou)
    } else if c == '寅' {
        Some(DiZhi::Yin)
    } else if c == '卯' {
        Some(DiZhi::Mao)
    } else if c == '辰' {
        Some(DiZhi::Chen)
    } else if c == '巳' {
        Some(DiZhi::Si)
    } else if c == '午' {
        Some(DiZhi::Wu)
    } else if c == '未' {
        Some(DiZhi::Wei)
    } else if c == '申' {
        Some(DiZhi::Shen)
    } else if c == '酉' {
        Some(DiZhi::You)
    } else if c == '戌' {
        Some(DiZhi::Xu)
    } else if c == '亥' {
        Some(DiZhi::Hai)
    } else {
        None
    }
}

/// Decode a branch character; any other character is rejected.
pub fn dizhi_from_char(c: char) -> (r: Option<DiZhi>)
    ensures
        r == spec_dizhi_of_char(c),
{
    match c {
        '子' => Some(DiZhi::Zi),
        '丑' => Some(DiZhi::Chou),
        '寅' => Some(DiZhi::Yin),
        '卯' => Some(DiZhi::Mao),
        '辰' => Some(DiZhi::Chen),
        '巳' => Some(DiZhi::Si),
        '午' => Some(DiZhi::Wu),
        '未' => Some(DiZhi::Wei),
        '申' => Some(DiZhi::Shen),
        '酉' => Some(DiZhi::You),
        '戌' => Some(DiZhi::Xu),
        '亥' => Some(DiZhi::Hai),
        _ => None,
    }
}

} // verus!
