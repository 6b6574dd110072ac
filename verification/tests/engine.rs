use liuyao::assemble::GuaLineResponse;
use liuyao::assemble::ResolveError;
use liuyao::assemble::resolve_cast;
use liuyao::elements::DiZhi;
use liuyao::elements::WuXing;
use liuyao::gua::Gua;
use liuyao::gua::YaoRole;
use liuyao::gua::determine_yao_roles;
use liuyao::palace::find_palace_element;
use liuyao::palace::find_palace_name;
use liuyao::palace::key_eq;
use liuyao::yao::Yao;

fn yaos_of(cast: &str) -> [Yao; 6] {
    let cs: Vec<char> = cast.chars().collect();
    assert_eq!(cs.len(), 6);
    let mut out = [Yao::YinStatic; 6];
    for i in 0..6 {
        out[i] = Yao::from_char(cs[i]).unwrap();
    }
    out
}

fn roles_of(cast: &str) -> (usize, usize) {
    let mut gua = Gua::new(yaos_of(cast));
    determine_yao_roles(&mut gua);
    let mut shi = usize::MAX;
    let mut ying = usize::MAX;
    for i in 0..6 {
        match gua.yao_roles[i] {
            YaoRole::Shi => shi = i,
            YaoRole::Ying => ying = i,
            YaoRole::Normal => {}
        }
    }
    (shi, ying)
}

#[test]
fn line_codec_glyphs_and_keys() {
    let y0 = Yao::from_char('0').unwrap();
    let y1 = Yao::from_char('1').unwrap();
    let y2 = Yao::from_char('2').unwrap();
    let y3 = Yao::from_char('3').unwrap();
    assert_eq!(y0.xiang(), "⚋ x");
    assert_eq!(y1.xiang(), "⚊");
    assert_eq!(y2.xiang(), "⚋");
    assert_eq!(y3.xiang(), "⚊ o");
    assert_eq!(y0.index_char(), '2');
    assert_eq!(y1.index_char(), '1');
    assert_eq!(y2.index_char(), '2');
    assert_eq!(y3.index_char(), '1');
    assert_eq!(Yao::from_char('4'), None);
    assert_eq!(Yao::from_char('x'), None);
}

#[test]
fn changed_line_flips_exactly_the_changing() {
    for c in ['0', '1', '2', '3'] {
        let y = Yao::from_char(c).unwrap();
        let b = y.to_bian_yao();
        assert!(!b.is_changing());
        // the key digit differs exactly when the line was changing
        assert_eq!(b.index_char() != y.index_char(), y.is_changing());
        // the changed glyph of a changing line is the opposite static glyph
        if y.is_changing() {
            let flipped = if y.index_char() == '1' { "⚋" } else { "⚊" };
            assert_eq!(b.xiang(), flipped);
        } else {
            assert_eq!(b.xiang(), y.xiang());
        }
    }
}

#[test]
fn gua_new_builds_key_and_blanks() {
    let gua = Gua::new(yaos_of("103122"));
    assert_eq!(gua.index_str, "121122");
    for i in 0..6 {
        assert!(matches!(gua.yao_roles[i], YaoRole::Normal));
    }
    assert_eq!(gua.palace_name, "未知卦");
}

#[test]
fn world_response_rules_in_order() {
    // first matching rule wins; casts picked to hit each rule in turn
    assert_eq!(roles_of("112222"), (1, 4));
    assert_eq!(roles_of("121122"), (4, 1));
    assert_eq!(roles_of("122111"), (3, 0));
    assert_eq!(roles_of("122222"), (0, 3));
    assert_eq!(roles_of("112211"), (3, 0));
    assert_eq!(roles_of("112122"), (2, 5));
    assert_eq!(roles_of("111111"), (5, 2));
    assert_eq!(roles_of("111222"), (2, 5));
}

#[test]
fn world_response_always_distinct() {
    for n in 0..4096u32 {
        let cast: String = (0..6).map(|k| char::from(b'0' + ((n >> (2 * k)) & 3) as u8)).collect();
        let (shi, ying) = roles_of(&cast);
        assert!(shi < 6);
        assert!(ying < 6);
        assert_ne!(shi, ying);
    }
}

#[test]
fn palace_lookups() {
    assert_eq!(find_palace_element("111111"), Some(WuXing::Jin));
    assert_eq!(find_palace_name("111111"), Some("乾为天䷀(六冲)"));
    assert_eq!(find_palace_element("111121"), Some(WuXing::Jin));
    assert_eq!(find_palace_name("111121"), Some("火天大有䷍"));
    assert_eq!(find_palace_element("121212"), Some(WuXing::Shui));
    assert_eq!(find_palace_name("121212"), Some("水火既济䷾"));
    assert_eq!(find_palace_element("222222"), Some(WuXing::Tu));
    assert_eq!(find_palace_name("222222"), Some("坤为地䷁(六冲)"));
    assert_eq!(find_palace_element("000000"), None);
    assert_eq!(find_palace_name("12121"), None);
}

#[test]
fn key_equality() {
    assert!(key_eq("111111", "111111"));
    assert!(!key_eq("111111", "111112"));
    assert!(!key_eq("111", "111111"));
    assert!(key_eq("乾为天", "乾为天"));
    assert!(!key_eq("乾为天", "乾为地"));
}

#[test]
fn pure_yang_cast_resolves_to_qian() {
    let lines = resolve_cast("111111", None, None).unwrap();
    assert_eq!(lines.len(), 7);
    assert_eq!(lines[6].base_text, "乾为天䷀(六冲)");
    assert_eq!(lines[6].bian_text, "乾为天䷀(六冲)");
    assert!(matches!(lines[6].role, YaoRole::Normal));
    // World on the top line, Response on the third (the all-equal rule)
    assert!(matches!(lines[5].role, YaoRole::Shi));
    assert!(matches!(lines[2].role, YaoRole::Ying));
    let expected = [
        "子孙子水⚊",
        "官鬼寅木⚊",
        "妻财辰土⚊",
        "父母午火⚊",
        "兄弟申金⚊",
        "妻财戌土⚊",
    ];
    for i in 0..6 {
        assert_eq!(lines[i].base_text, expected[i]);
        assert_eq!(lines[i].bian_text, expected[i]);
        assert!(!lines[i].is_changing);
        assert_eq!(lines[i].zheng_relations_text, "");
        assert_eq!(lines[i].bian_relations_text, "");
    }
}

#[test]
fn all_changing_cast_gives_opposite_pure_hexagrams() {
    let lines = resolve_cast("000000", None, None).unwrap();
    assert_eq!(lines.len(), 7);
    assert_eq!(lines[6].base_text, "坤为地䷁(六冲)");
    assert_eq!(lines[6].bian_text, "乾为天䷀(六冲)");
    // six-relative labels on both sides use the primary palace element
    let expected_zheng = [
        "兄弟未土⚋ x",
        "妻财巳火⚋ x",
        "父母卯木⚋ x",
        "兄弟丑土⚋ x",
        "官鬼亥水⚋ x",
        "子孙酉金⚋ x",
    ];
    let expected_bian = [
        "官鬼子水⚊",
        "父母寅木⚊",
        "兄弟辰土⚊",
        "妻财午火⚊",
        "子孙申金⚊",
        "兄弟戌土⚊",
    ];
    for i in 0..6 {
        assert!(lines[i].is_changing);
        assert_eq!(lines[i].base_text, expected_zheng[i]);
        assert_eq!(lines[i].bian_text, expected_bian[i]);
    }
    assert!(matches!(lines[5].role, YaoRole::Shi));
    assert!(matches!(lines[2].role, YaoRole::Ying));
}

#[test]
fn month_and_day_relations() {
    let lines = resolve_cast("111111", Some(DiZhi::You), Some(DiZhi::Chou)).unwrap();
    // line 0: branch Zi (Water); You-month metal generates it, Chou-day
    // combines with Zi and Chou's earth dominates water
    assert_eq!(lines[0].zheng_relations_text, " 月生 日合 日克");
    // line 4: branch Shen (Metal); only the Chou day's earth generates it
    assert_eq!(lines[4].zheng_relations_text, " 日生");
    // line 3: branch Wu (Fire); neither period branch relates to Wu, and
    // neither period element generates or dominates Fire
    assert_eq!(lines[3].zheng_relations_text, "");
}

#[test]
fn month_generation_direction_is_respected() {
    // month You (Metal) generates line 0's Water: annotated
    let lines = resolve_cast("111111", Some(DiZhi::You), None).unwrap();
    assert_eq!(lines[0].zheng_relations_text, " 月生");
    // month Mao (Wood): the line's Water generates Wood, but the test is
    // (month element, line element), so nothing is annotated; a swapped
    // order would have written a relation here
    let lines = resolve_cast("111111", Some(DiZhi::Mao), None).unwrap();
    assert_eq!(lines[0].zheng_relations_text, "");
}

#[test]
fn changing_line_return_relations() {
    let lines = resolve_cast("311111", None, None).unwrap();
    assert_eq!(lines[6].base_text, "乾为天䷀(六冲)");
    assert_eq!(lines[6].bian_text, "天风姤䷫");
    assert!(lines[0].is_changing);
    assert_eq!(lines[0].base_text, "子孙子水⚊ o");
    assert_eq!(lines[0].bian_text, "妻财丑土⚋");
    // the changed line's Earth dominates the primary line's Water, and
    // Chou combines with Zi
    assert_eq!(lines[0].bian_relations_text, " 回头克合");
    for i in 1..6 {
        assert!(!lines[i].is_changing);
        assert_eq!(lines[i].bian_relations_text, "");
    }
}

#[test]
fn rejects_bad_input_before_resolving() {
    assert_eq!(resolve_cast("", None, None).unwrap_err(), ResolveError::InvalidInputLength);
    assert_eq!(resolve_cast("11111", None, None).unwrap_err(), ResolveError::InvalidInputLength);
    assert_eq!(resolve_cast("1111111", None, None).unwrap_err(), ResolveError::InvalidInputLength);
    assert_eq!(resolve_cast("11111x", None, None).unwrap_err(), ResolveError::InvalidSymbol);
    assert_eq!(resolve_cast("411111", None, None).unwrap_err(), ResolveError::InvalidSymbol);
    assert_eq!(resolve_cast("1111 1", None, None).unwrap_err(), ResolveError::InvalidSymbol);
}

#[test]
fn every_cast_resolves() {
    for n in 0..4096u32 {
        let cast: String = (0..6).map(|k| char::from(b'0' + ((n >> (2 * k)) & 3) as u8)).collect();
        let lines: Vec<GuaLineResponse> = resolve_cast(&cast, Some(DiZhi::Si), Some(DiZhi::Hai))
            .unwrap();
        assert_eq!(lines.len(), 7);
        let mut shi = 0;
        let mut ying = 0;
        for (i, c) in cast.chars().enumerate() {
            let changing = c == '0' || c == '3';
            assert_eq!(lines[i].is_changing, changing);
            if !changing {
                assert_eq!(lines[i].bian_relations_text, "");
            }
            match lines[i].role {
                YaoRole::Shi => shi += 1,
                YaoRole::Ying => ying += 1,
                YaoRole::Normal => {}
            }
        }
        assert_eq!(shi, 1);
        assert_eq!(ying, 1);
        assert_ne!(lines[6].base_text, "未知卦");
        assert_ne!(lines[6].bian_text, "未知卦");
    }
}
