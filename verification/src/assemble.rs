//! The response assembler: decoding a cast into the primary and changed
//! hexagrams, and producing the per-line annotated records together with
//! the two hexagram names.

use vstd::prelude::*;

verus! {

use crate::elements::DiZhi;
use crate::elements::LiuQin;
use crate::elements::WuXing;
use crate::elements::get_chong_he_relation;
use crate::elements::get_sheng_ke_relation;
use crate::elements::spec_chong_he;
use crate::elements::spec_chong_he_text;
use crate::elements::spec_dizhi_text;
use crate::elements::spec_liuqin_text;
use crate::elements::spec_sheng_ke;
use crate::elements::spec_sheng_ke_text;
use crate::elements::spec_wuxing_of;
use crate::elements::spec_wuxing_text;
use crate::gua::Gua;
use crate::gua::YaoRole;
use crate::gua::determine_yao_roles;
use crate::gua::process_gua;
use crate::gua::spec_liuqin_lines;
use crate::gua::spec_shi_ying;
use crate::gua::spec_wuxing_lines;
use crate::palace::find_palace_element;
use crate::palace::find_palace_name;
use crate::palace::lemma_trigram_palace_total;
use crate::palace::spec_find_gen;
use crate::palace::spec_gen_name;
use crate::palace::spec_nei_dizhi;
use crate::palace::spec_palace_element;
use crate::palace::spec_trigram_palace;
use crate::palace::spec_valid_key_char;
use crate::palace::spec_wai_dizhi;
use crate::yao::Yao;
use crate::yao::spec_bian_lines;
use crate::yao::spec_is_changing;
use crate::yao::spec_key_of;
use crate::yao::spec_xiang_text;
use crate::yao::spec_yao_of_char;

/// Why a cast could not be resolved.
#[derive(Debug, Clone, Copy, PartialEq, Eq, Structural)]
pub enum ResolveError {
    /// The cast does not hold exactly six symbols.
    InvalidInputLength,
    /// A cast symbol lies outside the four-symbol alphabet.
    InvalidSymbol,
    /// A computed hexagram key matched none of the sixty-four canonical
    /// keys; the universe of keys is closed, so this marks a defect.
    InternalPaletteMiss,
}

/// One annotated line of the response, pairing the primary line with its
/// changed line.
#[derive(Debug)]
pub struct GuaLineResponse {
    /// Six-relative label, branch, element and glyph of the primary line.
    pub base_text: String,
    /// World / Response / plain role of the primary line.
    pub role: YaoRole,
    /// Month and day relations of the primary line.
    pub zheng_relations_text: String,
    /// Six-relative label, branch, element and glyph of the changed line.
    pub bian_text: String,
    /// Month, day and return relations of the changed line; empty unless
    /// the primary line is changing.
    pub bian_relations_text: String,
    /// Whether the primary line is changing.
    pub is_changing: bool,
}

/// A cast is valid when it holds exactly six symbols of the four-symbol
/// alphabet.
pub open spec fn spec_cast_valid(s: Seq<char>) -> bool {
    s.len() == 6 && (forall|i: int| 0 <= i < 6 ==> (#[trigger] spec_yao_of_char(s[i])) is Some)
}

/// The primary lines decoded from a valid cast.
pub open spec fn spec_primary_lines(s: Seq<char>) -> Seq<Yao>
    recommends
        spec_cast_valid(s),
{
    s.map_values(|c: char| spec_yao_of_char(c)->0)
}

/// The per-line branches of the hexagram whose key is `key`: the inner
/// triple of the palace owning the inner trigram followed by the outer
/// triple of the palace owning the outer trigram.
pub open spec fn spec_line_dizhi(key: Seq<char>) -> Seq<DiZhi>
    recommends
        key.len() == 6,
{
    spec_nei_dizhi(spec_trigram_palace(key.subrange(0, 3))->0) + spec_wai_dizhi(
        spec_trigram_palace(key.subrange(3, 6))->0,
    )
}

/// The text of one period relation: the labelled clash / combination of the
/// line's branch against the period branch, then the labelled generation /
/// domination of the period's element onto the line's element. The
/// generation test is ordered: the period acts on the line.
pub open spec fn spec_period_text(
    label: Seq<char>,
    period: DiZhi,
    branch: DiZhi,
    element: WuXing,
) -> Seq<char> {
    (match spec_chong_he(branch, period) {
        Some(r) => label + spec_chong_he_text(r),
        None => Seq::<char>::empty(),
    }) + (match spec_sheng_ke(spec_wuxing_of(period), element) {
        Some(r) => label + spec_sheng_ke_text(r),
        None => Seq::<char>::empty(),
    })
}

/// The month and day relation text of one line; empty parts are omitted and
/// an absent period branch contributes nothing.
pub open spec fn spec_month_day_text(
    month: Option<DiZhi>,
    day: Option<DiZhi>,
    branch: DiZhi,
    element: WuXing,
) -> Seq<char> {
    (match month {
        Some(m) => spec_period_text(" 月"@, m, branch, element),
        None => Seq::<char>::empty(),
    }) + (match day {
        Some(d) => spec_period_text(" 日"@, d, branch, element),
        None => Seq::<char>::empty(),
    })
}

/// The relation text of a changed line: its own month and day relations,
/// then the return relations of the changed line against its primary line
/// (generation / domination directed from the changed line onto the primary
/// line, and their clash / combination).
pub open spec fn spec_bian_rel_text(
    month: Option<DiZhi>,
    day: Option<DiZhi>,
    bian_branch: DiZhi,
    bian_element: WuXing,
    zheng_branch: DiZhi,
    zheng_element: WuXing,
) -> Seq<char> {
    spec_month_day_text(month, day, bian_branch, bian_element) + (match spec_sheng_ke(
        bian_element,
        zheng_element,
    ) {
        Some(r) => " 回头"@ + spec_sheng_ke_text(r),
        None => Seq::<char>::empty(),
    }) + (match spec_chong_he(bian_branch, zheng_branch) {
        Some(r) => spec_chong_he_text(r),
        None => Seq::<char>::empty(),
    })
}

/// The base text of one line: six-relative label, branch, element, glyph.
pub open spec fn spec_base_text(q: LiuQin, d: DiZhi, w: WuXing, y: Yao) -> Seq<char> {
    spec_liuqin_text(q) + spec_dizhi_text(d) + spec_wuxing_text(w) + spec_xiang_text(y)
}

/// What line record `i` of a resolved cast must hold, stated over the cast
/// symbols and the period branches alone.
pub open spec fn spec_line_ok(
    rec: GuaLineResponse,
    s: Seq<char>,
    month: Option<DiZhi>,
    day: Option<DiZhi>,
    i: int,
) -> bool {
    let zy = spec_primary_lines(s);
    let by = spec_bian_lines(zy);
    let zkey = spec_key_of(zy);
    let bkey = spec_key_of(by);
    let zd = spec_line_dizhi(zkey);
    let bd = spec_line_dizhi(bkey);
    let zw = spec_wuxing_lines(zd);
    let bw = spec_wuxing_lines(bd);
    let pe = spec_palace_element(spec_find_gen(zkey)->0 / 8);
    let zq = spec_liuqin_lines(pe, zw);
    let bq = spec_liuqin_lines(pe, bw);
    let roles = seq![
        YaoRole::Normal,
        YaoRole::Normal,
        YaoRole::Normal,
        YaoRole::Normal,
        YaoRole::Normal,
        YaoRole::Normal,
    ].update(spec_shi_ying(zy).0, YaoRole::Shi).update(spec_shi_ying(zy).1, YaoRole::Ying);
    &&& rec.base_text@ == spec_base_text(zq[i], zd[i], zw[i], zy[i])
    &&& rec.role == roles[i]
    &&& rec.zheng_relations_text@ == spec_month_day_text(month, day, zd[i], zw[i])
    &&& rec.bian_text@ == spec_base_text(bq[i], bd[i], bw[i], by[i])
    &&& rec.bian_relations_text@ == (if spec_is_changing(zy[i]) {
        spec_bian_rel_text(month, day, bd[i], bw[i], zd[i], zw[i])
    } else {
        Seq::<char>::empty()
    })
    &&& rec.is_changing == spec_is_changing(zy[i])
}

/// What the trailing name record of a resolved cast must hold: the display
/// names of the primary and the changed hexagram.
pub open spec fn spec_name_line_ok(rec: GuaLineResponse, s: Seq<char>) -> bool {
    let zkey = spec_key_of(spec_primary_lines(s));
    let bkey = spec_key_of(spec_bian_lines(spec_primary_lines(s)));
    &&& rec.base_text@ == spec_gen_name(spec_find_gen(zkey)->0 / 8, spec_find_gen(zkey)->0 % 8)
    &&& rec.role == YaoRole::Normal
    &&& rec.zheng_relations_text@ == Seq::<char>::empty()
    &&& rec.bian_text@ == spec_gen_name(spec_find_gen(bkey)->0 / 8, spec_find_gen(bkey)->0 % 8)
    &&& rec.bian_relations_text@ == Seq::<char>::empty()
    &&& rec.is_changing == false
}

/// Law: the keys of both hexagrams of a valid cast always resolve, so a
/// valid cast is never answered with an internal-miss error: resolution
/// succeeds exactly on the valid casts.
pub proof fn lemma_valid_cast_resolves(s: Seq<char>)
    requires
        spec_cast_valid(s),
    ensures
        spec_find_gen(spec_key_of(spec_primary_lines(s))) is Some,
        spec_find_gen(spec_key_of(spec_bian_lines(spec_primary_lines(s)))) is Some,
{
    let zy = spec_primary_lines(s);
    let by = spec_bian_lines(zy);
    let zkey = spec_key_of(zy);
    let bkey = spec_key_of(by);
    assert forall|i: int| 0 <= i < 6 implies spec_valid_key_char(#[trigger] zkey[i]) by {
        assert(spec_yao_of_char(s[i]) is Some);
    }
    assert forall|i: int| 0 <= i < 6 implies spec_valid_key_char(#[trigger] bkey[i]) by {
        assert(spec_yao_of_char(s[i]) is Some);
        assert(by[i] == crate::yao::spec_bian_yao(zy[i]));
    }
    crate::palace::lemma_gua_key_universe_closed(zkey);
    crate::palace::lemma_gua_key_universe_closed(bkey);
}

/// Build the base text of one line.
fn base_text_of(q: LiuQin, d: DiZhi, w: WuXing, y: Yao) -> (t: String)
    ensures
        t@ == spec_base_text(q, d, w, y),
{
    let mut t = String::new();
    t.append(q.text());
    t.append(d.text());
    t.append(w.text());
    t.append(y.xiang());
    proof {
        assert(t@ =~= spec_base_text(q, d, w, y));
    }
    t
}

/// Build the relation text of one line against one period branch.
fn period_text(label: &str, period: DiZhi, branch: DiZhi, element: WuXing) -> (t: String)
    ensures
        t@ == spec_period_text(label@, period, branch, element),
{
    let mut t = String::new();
    if let Some(r) = get_chong_he_relation(branch, period) {
        t.append(label);
        t.append(r.text());
    }
    if let Some(r) = get_sheng_ke_relation(period.wuxing(), element) {
        t.append(label);
        t.append(r.text());
    }
    proof {
        assert(t@ =~= spec_period_text(label@, period, branch, element));
    }
    t
}

/// Build the month and day relation text of one line.
fn month_day_text(
    month: Option<DiZhi>,
    day: Option<DiZhi>,
    branch: DiZhi,
    element: WuXing,
) -> (t: String)
    ensures
        t@ == spec_month_day_text(month, day, branch, element),
{
    let mut t = String::new();
    if let Some(m) = month {
        let tm = period_text(" 月", m, branch, element);
        t.append(tm.as_str());
    }
    if let Some(d) = day {
        let td = period_text(" 日", d, branch, element);
        t.append(td.as_str());
    }
    proof {
        assert(t@ =~= spec_month_day_text(month, day, branch, element));
    }
    t
}

/// Build the relation text of a changed line, return relations included.
fn bian_rel_text(
    month: Option<DiZhi>,
    day: Option<DiZhi>,
    bian_branch: DiZhi,
    bian_element: WuXing,
    zheng_branch: DiZhi,
    zheng_element: WuXing,
) -> (t: String)
    ensures
        t@ == spec_bian_rel_text(month, day, bian_branch, bian_element, zheng_branch,
        zheng_element),
{
    let mut t = month_day_text(month, day, bian_branch, bian_element);
    if let Some(r) = get_sheng_ke_relation(bian_element, zheng_element) {
        t.append(" 回头");
        t.append(r.text());
    }
    if let Some(r) = get_chong_he_relation(bian_branch, zheng_branch) {
        t.append(r.text());
    }
    proof {
        assert(t@ =~= spec_bian_rel_text(month, day, bian_branch, bian_element, zheng_branch,
        zheng_element));
    }
    t
}

/// Resolve a cast of six symbols against the month and day branches into
/// the seven response records: one annotated record per line, bottom to
/// top, and one trailing record holding the two hexagram names. A cast of
/// the wrong length or with a symbol outside the alphabet is rejected
/// before any computation; a key missing from the closed sixty-four-key
/// table is surfaced as an internal defect.
#[verifier::loop_isolation(false)]
pub fn resolve_cast(numbers: &str, month_dizhi: Option<DiZhi>, day_dizhi: Option<DiZhi>) -> (r:
    Result<Vec<GuaLineResponse>, ResolveError>)
    ensures
        match r {
            Ok(lines) => {
                &&& spec_cast_valid(numbers@)
                &&& spec_find_gen(spec_key_of(spec_primary_lines(numbers@))) is Some
                &&& spec_find_gen(spec_key_of(spec_bian_lines(spec_primary_lines(numbers@))))
                    is Some
                &&& lines@.len() == 7
                &&& forall|i: int|
                    0 <= i < 6 ==> spec_line_ok(
                        #[trigger] lines@[i],
                        numbers@,
                        month_dizhi,
                        day_dizhi,
                        i,
                    )
                &&& spec_name_line_ok(lines@[6], numbers@)
            },
            Err(ResolveError::InvalidInputLength) => numbers@.len() != 6,
            Err(ResolveError::InvalidSymbol) => numbers@.len() == 6 && !spec_cast_valid(numbers@),
            Err(ResolveError::InternalPaletteMiss) => {
                &&& spec_cast_valid(numbers@)
                &&& {
                    ||| spec_find_gen(spec_key_of(spec_primary_lines(numbers@))) is None
                    ||| spec_find_gen(spec_key_of(spec_bian_lines(spec_primary_lines(numbers@))))
                        is None
                }
            },
        },
{
    if numbers.unicode_len() != 6 {
        return Err(ResolveError::InvalidInputLength);
    }
    let mut zheng_yao: [Yao; 6] = [Yao::YinStatic, Yao::YinStatic, Yao::YinStatic, Yao::YinStatic, Yao::YinStatic, Yao::YinStatic];
    let mut i: usize = 0;
    while i < 6
        invariant
            i <= 6,
            forall|j: int| 0 <= j < i ==> spec_yao_of_char(numbers@[j]) == Some(
                #[trigger] zheng_yao@[j],
            ),
        decreases 6 - i,
    {
        match Yao::from_char(numbers.get_char(i)) {
            Some(y) => {
                zheng_yao[i] = y;
            },
            None => {
                return Err(ResolveError::InvalidSymbol);
            },
        }
        i = i + 1;
    }
    proof {
        assert(zheng_yao@ =~= spec_primary_lines(numbers@));
    }
    let mut bian_yao: [Yao; 6] = [Yao::YinStatic, Yao::YinStatic, Yao::YinStatic, Yao::YinStatic, Yao::YinStatic, Yao::YinStatic];
    let mut i: usize = 0;
    while i < 6
        invariant
            i <= 6,
            forall|j: int| 0 <= j < i ==> #[trigger] bian_yao@[j] == crate::yao::spec_bian_yao(
                zheng_yao@[j],
            ),
        decreases 6 - i,
    {
        bian_yao[i] = zheng_yao[i].to_bian_yao();
        i = i + 1;
    }
    proof {
        assert(bian_yao@ =~= spec_bian_lines(zheng_yao@));
    }
    let mut zheng_gua = Gua::new(zheng_yao);
    let mut bian_gua = Gua::new(bian_yao);
    let ghost zkey = spec_key_of(zheng_yao@);
    let ghost bkey = spec_key_of(bian_yao@);
    let palace_element = match find_palace_element(zheng_gua.index_str.as_str()) {
        Some(e) => e,
        None => {
            return Err(ResolveError::InternalPaletteMiss);
        },
    };
    match find_palace_name(bian_gua.index_str.as_str()) {
        Some(_) => (),
        None => {
            return Err(ResolveError::InternalPaletteMiss);
        },
    }
    proof {
        lemma_trigram_palace_total(zkey.subrange(0, 3));
        lemma_trigram_palace_total(zkey.subrange(3, 6));
        lemma_trigram_palace_total(bkey.subrange(0, 3));
        lemma_trigram_palace_total(bkey.subrange(3, 6));
    }
    process_gua(&mut zheng_gua, palace_element);
    determine_yao_roles(&mut zheng_gua);
    process_gua(&mut bian_gua, palace_element);
    let mut lines: Vec<GuaLineResponse> = Vec::new();
    let mut i: usize = 0;
    while i < 6
        invariant
            i <= 6,
            lines@.len() == i as int,
            forall|j: int| 0 <= j < i ==> spec_line_ok(
                #[trigger] lines@[j],
                numbers@,
                month_dizhi,
                day_dizhi,
                j,
            ),
        decreases 6 - i,
    {
        let base_text = base_text_of(
            zheng_gua.liuqin[i],
            zheng_gua.dizhi[i],
            zheng_gua.wuxing[i],
            zheng_gua.yao_xiang[i],
        );
        let zheng_relations_text = month_day_text(
            month_dizhi,
            day_dizhi,
            zheng_gua.dizhi[i],
            zheng_gua.wuxing[i],
        );
        let is_changing = zheng_gua.yao_xiang[i].is_changing();
        let bian_relations_text = if is_changing {
            bian_rel_text(
                month_dizhi,
                day_dizhi,
                bian_gua.dizhi[i],
                bian_gua.wuxing[i],
                zheng_gua.dizhi[i],
                zheng_gua.wuxing[i],
            )
        } else {
            String::new()
        };
        let bian_text = base_text_of(
            bian_gua.liuqin[i],
            bian_gua.dizhi[i],
            bian_gua.wuxing[i],
            bian_gua.yao_xiang[i],
        );
        let rec = GuaLineResponse {
            base_text,
            role: zheng_gua.yao_roles[i],
            zheng_relations_text,
            bian_text,
            bian_relations_text,
            is_changing,
        };
        lines.push(rec);
        i = i + 1;
    }
    let name_line = GuaLineResponse {
        base_text: zheng_gua.palace_name.to_owned(),
        role: YaoRole::Normal,
        zheng_relations_text: String::new(),
        bian_text: bian_gua.palace_name.to_owned(),
        bian_relations_text: String::new(),
        is_changing: false,
    };
    lines.push(name_line);
    Ok(lines)
}

} // verus!
