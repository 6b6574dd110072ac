use liuyao::elements::ChongHe;
use liuyao::elements::DiZhi;
use liuyao::elements::LiuQin;
use liuyao::elements::ShengKe;
use liuyao::elements::WuXing;
use liuyao::elements::dizhi_from_char;
use liuyao::elements::get_chong_he_relation;
use liuyao::elements::get_sheng_ke_relation;
use liuyao::elements::liu_qin_of;

fn all_dizhi() -> Vec<DiZhi> {
    vec![
        DiZhi::Zi,
        DiZhi::Chou,
        DiZhi::Yin,
        DiZhi::Mao,
        DiZhi::Chen,
        DiZhi::Si,
        DiZhi::Wu,
        DiZhi::Wei,
        DiZhi::Shen,
        DiZhi::You,
        DiZhi::Xu,
        DiZhi::Hai,
    ]
}

fn all_wuxing() -> Vec<WuXing> {
    vec![WuXing::Jin, WuXing::Mu, WuXing::Shui, WuXing::Huo, WuXing::Tu]
}

#[test]
fn chong_he_symmetric_over_all_pairs() {
    for &a in all_dizhi().iter() {
        for &b in all_dizhi().iter() {
            assert_eq!(get_chong_he_relation(a, b), get_chong_he_relation(b, a));
        }
    }
}

#[test]
fn chong_he_counts() {
    let mut chong = 0;
    let mut he = 0;
    let mut none = 0;
    for &a in all_dizhi().iter() {
        for &b in all_dizhi().iter() {
            match get_chong_he_relation(a, b) {
                Some(ChongHe::Chong) => chong += 1,
                Some(ChongHe::He) => he += 1,
                None => none += 1,
            }
        }
    }
    // six clash pairs and six combination pairs, each counted in both orders
    assert_eq!(chong, 12);
    assert_eq!(he, 12);
    assert_eq!(none, 144 - 24);
}

#[test]
fn chong_he_exact_pairs() {
    assert_eq!(get_chong_he_relation(DiZhi::Zi, DiZhi::Wu), Some(ChongHe::Chong));
    assert_eq!(get_chong_he_relation(DiZhi::Si, DiZhi::Hai), Some(ChongHe::Chong));
    assert_eq!(get_chong_he_relation(DiZhi::Zi, DiZhi::Chou), Some(ChongHe::He));
    assert_eq!(get_chong_he_relation(DiZhi::Wu, DiZhi::Wei), Some(ChongHe::He));
    assert_eq!(get_chong_he_relation(DiZhi::Zi, DiZhi::Yin), None);
    assert_eq!(get_chong_he_relation(DiZhi::Zi, DiZhi::Zi), None);
}

#[test]
fn sheng_ke_cycle_exact() {
    let sheng = [
        (WuXing::Mu, WuXing::Huo),
        (WuXing::Huo, WuXing::Tu),
        (WuXing::Tu, WuXing::Jin),
        (WuXing::Jin, WuXing::Shui),
        (WuXing::Shui, WuXing::Mu),
    ];
    let ke = [
        (WuXing::Mu, WuXing::Tu),
        (WuXing::Huo, WuXing::Jin),
        (WuXing::Tu, WuXing::Shui),
        (WuXing::Jin, WuXing::Mu),
        (WuXing::Shui, WuXing::Huo),
    ];
    for &(a, b) in sheng.iter() {
        assert_eq!(get_sheng_ke_relation(a, b), Some(ShengKe::Sheng));
    }
    for &(a, b) in ke.iter() {
        assert_eq!(get_sheng_ke_relation(a, b), Some(ShengKe::Ke));
    }
    for &a in all_wuxing().iter() {
        assert_eq!(get_sheng_ke_relation(a, a), None);
    }
}

#[test]
fn sheng_ke_is_directional() {
    // a related pair read in the other order carries no relation at all
    for &a in all_wuxing().iter() {
        for &b in all_wuxing().iter() {
            if get_sheng_ke_relation(a, b).is_some() {
                assert!(get_sheng_ke_relation(b, a).is_none());
            }
        }
    }
    assert_eq!(get_sheng_ke_relation(WuXing::Jin, WuXing::Shui), Some(ShengKe::Sheng));
    assert_eq!(get_sheng_ke_relation(WuXing::Shui, WuXing::Jin), None);
}

#[test]
fn liu_qin_exhaustive() {
    for &palace in all_wuxing().iter() {
        for &line in all_wuxing().iter() {
            let expected = if palace == line {
                LiuQin::XiongDi
            } else if get_sheng_ke_relation(palace, line) == Some(ShengKe::Sheng) {
                LiuQin::ZiSun
            } else if get_sheng_ke_relation(line, palace) == Some(ShengKe::Sheng) {
                LiuQin::QiCai
            } else if get_sheng_ke_relation(palace, line) == Some(ShengKe::Ke) {
                LiuQin::GuanGui
            } else {
                LiuQin::FuMu
            };
            assert_eq!(liu_qin_of(palace, line), expected);
        }
    }
    // spot checks of each category
    assert_eq!(liu_qin_of(WuXing::Jin, WuXing::Jin), LiuQin::XiongDi);
    assert_eq!(liu_qin_of(WuXing::Jin, WuXing::Shui), LiuQin::ZiSun);
    assert_eq!(liu_qin_of(WuXing::Jin, WuXing::Tu), LiuQin::QiCai);
    assert_eq!(liu_qin_of(WuXing::Jin, WuXing::Mu), LiuQin::GuanGui);
    assert_eq!(liu_qin_of(WuXing::Jin, WuXing::Huo), LiuQin::FuMu);
}

#[test]
fn branch_elements() {
    assert_eq!(DiZhi::Zi.wuxing(), WuXing::Shui);
    assert_eq!(DiZhi::Hai.wuxing(), WuXing::Shui);
    assert_eq!(DiZhi::Yin.wuxing(), WuXing::Mu);
    assert_eq!(DiZhi::Mao.wuxing(), WuXing::Mu);
    assert_eq!(DiZhi::Si.wuxing(), WuXing::Huo);
    assert_eq!(DiZhi::Wu.wuxing(), WuXing::Huo);
    assert_eq!(DiZhi::Shen.wuxing(), WuXing::Jin);
    assert_eq!(DiZhi::You.wuxing(), WuXing::Jin);
    assert_eq!(DiZhi::Chen.wuxing(), WuXing::Tu);
    assert_eq!(DiZhi::Xu.wuxing(), WuXing::Tu);
    assert_eq!(DiZhi::Chou.wuxing(), WuXing::Tu);
    assert_eq!(DiZhi::Wei.wuxing(), WuXing::Tu);
}

#[test]
fn display_texts() {
    assert_eq!(WuXing::Jin.text(), "金");
    assert_eq!(WuXing::Tu.text(), "土");
    assert_eq!(DiZhi::Zi.text(), "子");
    assert_eq!(DiZhi::Hai.text(), "亥");
    assert_eq!(LiuQin::XiongDi.text(), "兄弟");
    assert_eq!(LiuQin::QiCai.text(), "妻财");
    assert_eq!(ChongHe::Chong.text(), "冲");
    assert_eq!(ChongHe::He.text(), "合");
    assert_eq!(ShengKe::Sheng.text(), "生");
    assert_eq!(ShengKe::Ke.text(), "克");
}

#[test]
fn dizhi_decoding() {
    assert_eq!(dizhi_from_char('子'), Some(DiZhi::Zi));
    assert_eq!(dizhi_from_char('巳'), Some(DiZhi::Si));
    assert_eq!(dizhi_from_char('亥'), Some(DiZhi::Hai));
    assert_eq!(dizhi_from_char('甲'), None);
    assert_eq!(dizhi_from_char('x'), None);
}
