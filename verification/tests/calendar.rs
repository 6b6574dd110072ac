use liuyao::calendar::branch_of_pillar;
use liuyao::calendar::ganzhi_context;
use liuyao::elements::DiZhi;

#[test]
fn pillar_branch_extraction() {
    assert_eq!(branch_of_pillar("辛巳"), Some(DiZhi::Si));
    assert_eq!(branch_of_pillar("壬辰"), Some(DiZhi::Chen));
    assert_eq!(branch_of_pillar("甲子"), Some(DiZhi::Zi));
    // anything that is not a two-character pillar yields no branch
    assert_eq!(branch_of_pillar("巳"), None);
    assert_eq!(branch_of_pillar("辛巳年"), None);
    assert_eq!(branch_of_pillar(""), None);
    assert_eq!(branch_of_pillar("xy"), None);
}

#[test]
fn context_of_known_month() {
    let ctx = ganzhi_context(1990, 10, 8, 12, 0, 0);
    assert_eq!(ctx.year_ganzhi, "庚午");
    assert_eq!(ctx.month_ganzhi, "丙戌");
    assert_eq!(ctx.month_dizhi, Some(DiZhi::Xu));
    assert_eq!(ctx.hour_zhi, "午");
    assert!(ctx.day_dizhi.is_some());
}

#[test]
fn context_of_known_day() {
    let ctx = ganzhi_context(1991, 5, 12, 12, 0, 0);
    assert_eq!(ctx.day_ganzhi, "壬午");
    assert_eq!(ctx.day_dizhi, Some(DiZhi::Wu));
}

#[test]
fn context_feeds_the_engine() {
    let ctx = ganzhi_context(1990, 10, 8, 12, 0, 0);
    let lines = liuyao::assemble::resolve_cast("111111", ctx.month_dizhi, ctx.day_dizhi).unwrap();
    assert_eq!(lines.len(), 7);
    // the Xu month branch clashes with line 2's Chen branch
    assert!(lines[2].zheng_relations_text.contains(" 月冲"));
}
