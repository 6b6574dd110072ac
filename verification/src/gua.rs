//! A hexagram under resolution: its six lines, its key, and the annotations
//! filled in from the palace table, together with the World/Response
//! locator.

use vstd::prelude::*;

verus! {

use crate::elements::DiZhi;
use crate::elements::LiuQin;
use crate::elements::WuXing;
use crate::elements::spec_liu_qin;
use crate::elements::spec_wuxing_of;
use crate::elements::liu_qin_of;
use crate::palace::find_palace_name;
use crate::palace::find_trigram_palace;
use crate::palace::palace_nei_dizhi;
use crate::palace::palace_wai_dizhi;
use crate::palace::spec_find_gen;
use crate::palace::spec_gen_name;
use crate::palace::spec_nei_dizhi;
use crate::palace::spec_trigram_palace;
use crate::palace::spec_wai_dizhi;
use crate::yao::Yao;
use crate::yao::spec_index_char;
use crate::yao::spec_key_of;

/// The role of a line in the primary hexagram: World, Response or plain.
#[derive(Debug, Clone, Copy, PartialEq, Eq, Structural)]
pub enum YaoRole {
    Shi,
    Ying,
    Normal,
}

/// A hexagram with its per-line annotations.
pub struct Gua {
    /// The six lines, bottom to top.
    pub yao_xiang: [Yao; 6],
    /// The six-character key, one polarity digit per line.
    pub index_str: String,
    /// The World/Response role of each line.
    pub yao_roles: [YaoRole; 6],
    /// The earthly branch of each line.
    pub dizhi: [DiZhi; 6],
    /// The element of each line.
    pub wuxing: [WuXing; 6],
    /// The six-relative label of each line.
    pub liuqin: [LiuQin; 6],
    /// The display name of the hexagram.
    pub palace_name: &'static str,
}

/// The elements of a line sequence's branches.
pub open spec fn spec_wuxing_lines(ds: Seq<DiZhi>) -> Seq<WuXing> {
    ds.map_values(|d: DiZhi| spec_wuxing_of(d))
}

/// The six-relative labels of a line sequence's elements, seen from the
/// governing palace element.
pub open spec fn spec_liuqin_lines(palace_element: WuXing, ws: Seq<WuXing>) -> Seq<LiuQin> {
    ws.map_values(|w: WuXing| spec_liu_qin(palace_element, w))
}

impl Gua {
    /// The key always spells out the lines' polarities.
    pub open spec fn wf(self) -> bool {
        self.index_str@ == spec_key_of(self.yao_xiang@)
    }

    /// A fresh hexagram: the key is derived from the lines, every other
    /// annotation starts at its blank value.
    pub fn new(yao_xiang: [Yao; 6]) -> (g: Gua)
        ensures
            g.wf(),
            g.yao_xiang@ == yao_xiang@,
            g.yao_roles@ =~= seq![
                YaoRole::Normal,
                YaoRole::Normal,
                YaoRole::Normal,
                YaoRole::Normal,
                YaoRole::Normal,
                YaoRole::Normal,
            ],
            g.dizhi@ =~= seq![DiZhi::Zi, DiZhi::Zi, DiZhi::Zi, DiZhi::Zi, DiZhi::Zi, DiZhi::Zi],
            g.wuxing@ =~= seq![
                WuXing::Jin,
                WuXing::Jin,
                WuXing::Jin,
                WuXing::Jin,
                WuXing::Jin,
                WuXing::Jin,
            ],
            g.liuqin@ =~= seq![
                LiuQin::XiongDi,
                LiuQin::XiongDi,
                LiuQin::XiongDi,
                LiuQin::XiongDi,
                LiuQin::XiongDi,
                LiuQin::XiongDi,
            ],
            g.palace_name@ == "未知卦"@,
    {
        let mut index_str = String::new();
        let mut i: usize = 0;
        while i < 6
            invariant
                i <= 6,
                index_str@ == spec_key_of(yao_xiang@.take(i as int)),
            decreases 6 - i,
        {
            index_str.append(yao_xiang[i].index_str());
            proof {
                assert(yao_xiang@.take(i + 1) =~= yao_xiang@.take(i as int).push(
                    yao_xiang@[i as int],
                ));
                assert(spec_key_of(yao_xiang@.take(i + 1)) =~= spec_key_of(
                    yao_xiang@.take(i as int),
                ).push(spec_index_char(yao_xiang@[i as int])));
            }
            i = i + 1;
        }
        proof {
            assert(yao_xiang@.take(6) =~= yao_xiang@);
        }
        Gua {
            yao_xiang,
            index_str,
            yao_roles: [
                YaoRole::Normal,
                YaoRole::Normal,
                YaoRole::Normal,
                YaoRole::Normal,
                YaoRole::Normal,
                YaoRole::Normal,
            ],
            dizhi: [DiZhi::Zi, DiZhi::Zi, DiZhi::Zi, DiZhi::Zi, DiZhi::Zi, DiZhi::Zi],
            wuxing: [
                WuXing::Jin,
                WuXing::Jin,
                WuXing::Jin,
                WuXing::Jin,
                WuXing::Jin,
                WuXing::Jin,
            ],
            liuqin: [
                LiuQin::XiongDi,
                LiuQin::XiongDi,
                LiuQin::XiongDi,
                LiuQin::XiongDi,
                LiuQin::XiongDi,
                LiuQin::XiongDi,
            ],
            palace_name: "未知卦",
        }
    }
}

/// Whether line `i` of the inner trigram has the same polarity as line `i`
/// of the outer trigram.
pub open spec fn spec_polar_eq(ys: Seq<Yao>, i: int) -> bool {
    spec_index_char(ys[i]) == spec_index_char(ys[i + 3])
}

/// The (World, Response) line positions of a hexagram, decided by the
/// ordered ladder of trigram comparisons. The rules are tried in order and
/// the first match wins; the third and fifth rule share an outcome by
/// design, and the final rule is the fallback.
pub open spec fn spec_shi_ying(ys: Seq<Yao>) -> (int, int) {
    let e0 = spec_polar_eq(ys, 0);
    let e1 = spec_polar_eq(ys, 1);
    let e2 = spec_polar_eq(ys, 2);
    if e2 && !e0 && !e1 {
        (1int, 4int)
    } else if !e2 && e0 && e1 {
        (4int, 1int)
    } else if e0 && !e1 && !e2 {
        (3int, 0int)
    } else if !e0 && e1 && e2 {
        (0int, 3int)
    } else if e1 && !e0 && !e2 {
        (3int, 0int)
    } else if !e1 && e0 && e2 {
        (2int, 5int)
    } else if e0 && e1 && e2 {
        (5int, 2int)
    } else {
        (2int, 5int)
    }
}

/// Mark the World and Response lines of the primary hexagram; all other
/// annotations are left as they are.
pub fn determine_yao_roles(gua: &mut Gua)
    ensures
        final(gua).yao_roles@ == old(gua).yao_roles@.update(
            spec_shi_ying(old(gua).yao_xiang@).0,
            YaoRole::Shi,
        ).update(spec_shi_ying(old(gua).yao_xiang@).1, YaoRole::Ying),
        final(gua).yao_xiang@ == old(gua).yao_xiang@,
        final(gua).index_str@ == old(gua).index_str@,
        final(gua).dizhi@ == old(gua).dizhi@,
        final(gua).wuxing@ == old(gua).wuxing@,
        final(gua).liuqin@ == old(gua).liuqin@,
        final(gua).palace_name@ == old(gua).palace_name@,
{
    let e0 = gua.yao_xiang[0].index_char() == gua.yao_xiang[3].index_char();
    let e1 = gua.yao_xiang[1].index_char() == gua.yao_xiang[4].index_char();
    let e2 = gua.yao_xiang[2].index_char() == gua.yao_xiang[5].index_char();
    let (shi_idx, ying_idx): (usize, usize) = if e2 && !e0 && !e1 {
        (1, 4)
    } else if !e2 && e0 && e1 {
        (4, 1)
    } else if e0 && !e1 && !e2 {
        (3, 0)
    } else if !e0 && e1 && e2 {
        (0, 3)
    } else if e1 && !e0 && !e2 {
        (3, 0)
    } else if !e1 && e0 && e2 {
        (2, 5)
    } else if e0 && e1 && e2 {
        (5, 2)
    } else {
        (2, 5)
    };
    gua.yao_roles[shi_idx] = YaoRole::Shi;
    gua.yao_roles[ying_idx] = YaoRole::Ying;
}

/// Law: the World and Response positions are always two distinct positions
/// among the six lines, whatever the cast. The locator is a function of the
/// line polarities alone, so repeated calls on one input agree.
pub proof fn lemma_shi_ying_distinct(ys: Seq<Yao>)
    ensures
        0 <= spec_shi_ying(ys).0 < 6,
        0 <= spec_shi_ying(ys).1 < 6,
        spec_shi_ying(ys).0 != spec_shi_ying(ys).1,
{
}

/// Fill each line's branch from the palace table: the inner triple of the
/// palace owning the inner trigram, then the outer triple of the palace
/// owning the outer trigram. When either trigram key has no palace the
/// branches are left untouched.
pub fn append_dizhi(gua: &mut Gua)
    requires
        old(gua).index_str@.len() == 6,
    ensures
        ({
            let pn = spec_trigram_palace(old(gua).index_str@.subrange(0, 3));
            let pw = spec_trigram_palace(old(gua).index_str@.subrange(3, 6));
            if pn is Some && pw is Some {
                final(gua).dizhi@ == spec_nei_dizhi(pn->0) + spec_wai_dizhi(pw->0)
            } else {
                final(gua).dizhi@ == old(gua).dizhi@
            }
        }),
        final(gua).yao_xiang@ == old(gua).yao_xiang@,
        final(gua).index_str@ == old(gua).index_str@,
        final(gua).yao_roles@ == old(gua).yao_roles@,
        final(gua).wuxing@ == old(gua).wuxing@,
        final(gua).liuqin@ == old(gua).liuqin@,
        final(gua).palace_name@ == old(gua).palace_name@,
{
    let nei_index = gua.index_str.as_str().substring_char(0, 3);
    let wai_index = gua.index_str.as_str().substring_char(3, 6);
    let pn = find_trigram_palace(nei_index);
    let pw = find_trigram_palace(wai_index);
    if let (Some(p_nei), Some(p_wai)) = (pn, pw) {
        gua.dizhi[0] = palace_nei_dizhi(p_nei, 0);
        gua.dizhi[1] = palace_nei_dizhi(p_nei, 1);
        gua.dizhi[2] = palace_nei_dizhi(p_nei, 2);
        gua.dizhi[3] = palace_wai_dizhi(p_wai, 0);
        gua.dizhi[4] = palace_wai_dizhi(p_wai, 1);
        gua.dizhi[5] = palace_wai_dizhi(p_wai, 2);
        proof {
            assert(gua.dizhi@ =~= spec_nei_dizhi(p_nei as int) + spec_wai_dizhi(p_wai as int));
        }
    }
}

/// Fill each line's element from its branch.
pub fn append_wuxing(gua: &mut Gua)
    ensures
        final(gua).wuxing@ == spec_wuxing_lines(old(gua).dizhi@),
        final(gua).yao_xiang@ == old(gua).yao_xiang@,
        final(gua).index_str@ == old(gua).index_str@,
        final(gua).yao_roles@ == old(gua).yao_roles@,
        final(gua).dizhi@ == old(gua).dizhi@,
        final(gua).liuqin@ == old(gua).liuqin@,
        final(gua).palace_name@ == old(gua).palace_name@,
{
    let mut i: usize = 0;
    while i < 6
        invariant
            i <= 6,
            gua.yao_xiang@ == old(gua).yao_xiang@,
            gua.index_str@ == old(gua).index_str@,
            gua.yao_roles@ == old(gua).yao_roles@,
            gua.dizhi@ == old(gua).dizhi@,
            gua.liuqin@ == old(gua).liuqin@,
            gua.palace_name@ == old(gua).palace_name@,
            forall|j: int| 0 <= j < i ==> gua.wuxing@[j] == spec_wuxing_of(gua.dizhi@[j]),
        decreases 6 - i,
    {
        gua.wuxing[i] = gua.dizhi[i].wuxing();
        i = i + 1;
    }
    proof {
        assert(gua.wuxing@ =~= spec_wuxing_lines(gua.dizhi@));
    }
}

/// Fill each line's six-relative label from its element and the governing
/// palace element. Both the primary and the changed hexagram are labelled
/// from the primary's governing element, which the caller passes in.
pub fn append_liuqin(gua: &mut Gua, palace_element: WuXing)
    ensures
        final(gua).liuqin@ == spec_liuqin_lines(palace_element, old(gua).wuxing@),
        final(gua).yao_xiang@ == old(gua).yao_xiang@,
        final(gua).index_str@ == old(gua).index_str@,
        final(gua).yao_roles@ == old(gua).yao_roles@,
        final(gua).dizhi@ == old(gua).dizhi@,
        final(gua).wuxing@ == old(gua).wuxing@,
        final(gua).palace_name@ == old(gua).palace_name@,
{
    let mut i: usize = 0;
    while i < 6
        invariant
            i <= 6,
            gua.yao_xiang@ == old(gua).yao_xiang@,
            gua.index_str@ == old(gua).index_str@,
            gua.yao_roles@ == old(gua).yao_roles@,
            gua.dizhi@ == old(gua).dizhi@,
            gua.wuxing@ == old(gua).wuxing@,
            gua.palace_name@ == old(gua).palace_name@,
            forall|j: int| 0 <= j < i ==> gua.liuqin@[j] == spec_liu_qin(
                palace_element,
                gua.wuxing@[j],
            ),
        decreases 6 - i,
    {
        gua.liuqin[i] = liu_qin_of(palace_element, gua.wuxing[i]);
        i = i + 1;
    }
    proof {
        assert(gua.liuqin@ =~= spec_liuqin_lines(palace_element, gua.wuxing@));
    }
}

/// Fill a hexagram's branches, elements, six-relative labels and display
/// name. The governing element is passed in because the changed hexagram is
/// labelled from the primary's governing element, never its own.
pub fn process_gua(gua: &mut Gua, palace_element: WuXing)
    requires
        old(gua).index_str@.len() == 6,
    ensures
        ({
            let pn = spec_trigram_palace(old(gua).index_str@.subrange(0, 3));
            let pw = spec_trigram_palace(old(gua).index_str@.subrange(3, 6));
            if pn is Some && pw is Some {
                final(gua).dizhi@ == spec_nei_dizhi(pn->0) + spec_wai_dizhi(pw->0)
            } else {
                final(gua).dizhi@ == old(gua).dizhi@
            }
        }),
        final(gua).wuxing@ == spec_wuxing_lines(final(gua).dizhi@),
        final(gua).liuqin@ == spec_liuqin_lines(palace_element, final(gua).wuxing@),
        ({
            match spec_find_gen(old(gua).index_str@) {
                Some(i) => final(gua).palace_name@ == spec_gen_name(i / 8, i % 8),
                None => final(gua).palace_name@ == "未知卦"@,
            }
        }),
        final(gua).yao_xiang@ == old(gua).yao_xiang@,
        final(gua).index_str@ == old(gua).index_str@,
        final(gua).yao_roles@ == old(gua).yao_roles@,
{
    append_dizhi(gua);
    append_wuxing(gua);
    append_liuqin(gua, palace_element);
    gua.palace_name = match find_palace_name(gua.index_str.as_str()) {
        Some(name) => name,
        None => "未知卦",
    };
}

} // verus!
