//! Short notes that explain the indicators of a report.

use vstd::prelude::*;

verus! {

/// The notes, each with the indicator that it explains. No indicator occurs
/// twice.
pub open spec fn standard_descriptions() -> Seq<(Seq<char>, Seq<char>)> {
    seq![
        ("货币资金"@, "企业可随时支配的现金"@),
        ("应收账款"@, "应收取的销售款项"@),
        ("存货"@, "原材料、产成品等"@),
        ("固定资产"@, "房屋、设备等长期资产"@),
        ("无形资产"@, "专利权、商标权等"@),
        ("资产总计"@, "企业全部资源"@),
        ("负债合计"@, "企业全部债务"@),
        ("所有者权益合计"@, "净资产"@),
        ("营业收入"@, "主营业务收入"@),
        ("营业总收入"@, "主营业务收入"@),
        ("营业成本"@, "直接成本"@),
        ("净利润"@, "最终利润"@),
        ("持续经营净利润"@, "扣除非经常性损益"@),
        ("销售费用"@, "销售过程费用"@),
        ("管理费用"@, "管理活动费用"@),
        ("财务费用"@, "利息支出净额"@),
        ("经营活动产生的现金流量净额"@, "经营现金净额"@),
        ("自由现金流"@, "经营现金流-资本支出"@),
        ("毛利率"@, "产品盈利能力"@),
        ("净利率"@, "整体盈利能力"@),
        ("ROE"@, "股东回报率"@),
        ("ROA"@, "资产使用效率"@),
        ("经营杠杆DOL"@, ">1表示正向放大"@),
        ("财务杠杆DFL"@, "接近1表示低风险"@),
        ("总杠杆DTL"@, "综合杠杆效应"@),
        ("DCF企业价值"@, "现金流折现价值"@),
        ("DCF每股价值"@, "企业价值/总股本"@),
        ("唐朝低估价"@, "保守买入价"@),
        ("唐朝高估价"@, "乐观卖出价"@),
    ]
}

/// The note of an indicator in a table: that of the first entry with its name,
/// and the empty text where there is none.
pub open spec fn described(table: Seq<(Seq<char>, Seq<char>)>, key: Seq<char>) -> Seq<char>
    decreases table.len(),
{
    if table.len() == 0 {
        Seq::empty()
    } else if table[0].0 == key {
        table[0].1
    } else {
        described(table.drop_first(), key)
    }
}

/// The notes that explain the indicators of a report.
#[derive(Debug)]
pub struct IndicatorDescriptions {
    descriptions: Vec<(String, String)>,
}

impl IndicatorDescriptions {
    /// The notes as pairs of indicator and text.
    pub closed spec fn table(&self) -> Seq<(Seq<char>, Seq<char>)> {
        Seq::new(
            self.descriptions@.len(),
            |i: int| (self.descriptions@[i].0@, self.descriptions@[i].1@),
        )
    }

    /// The standard notes.
    pub fn new() -> (r: Self)
        ensures
            r.table() == standard_descriptions(),
    {
        let mut descriptions: Vec<(String, String)> = Vec::new();
        descriptions.push(("货币资金".to_string(), "企业可随时支配的现金".to_string()));
        descriptions.push(("应收账款".to_string(), "应收取的销售款项".to_string()));
        descriptions.push(("存货".to_string(), "原材料、产成品等".to_string()));
        descriptions.push(("固定资产".to_string(), "房屋、设备等长期资产".to_string()));
        descriptions.push(("无形资产".to_string(), "专利权、商标权等".to_string()));
        descriptions.push(("资产总计".to_string(), "企业全部资源".to_string()));
        descriptions.push(("负债合计".to_string(), "企业全部债务".to_string()));
        descriptions.push(("所有者权益合计".to_string(), "净资产".to_string()));
        descriptions.push(("营业收入".to_string(), "主营业务收入".to_string()));
        descriptions.push(("营业总收入".to_string(), "主营业务收入".to_string()));
        descriptions.push(("营业成本".to_string(), "直接成本".to_string()));
        descriptions.push(("净利润".to_string(), "最终利润".to_string()));
        descriptions.push(("持续经营净利润".to_string(), "扣除非经常性损益".to_string()));
        descriptions.push(("销售费用".to_string(), "销售过程费用".to_string()));
        descriptions.push(("管理费用".to_string(), "管理活动费用".to_string()));
        descriptions.push(("财务费用".to_string(), "利息支出净额".to_string()));
        descriptions.push(("经营活动产生的现金流量净额".to_string(), "经营现金净额".to_string()));
        descriptions.push(("自由现金流".to_string(), "经营现金流-资本支出".to_string()));
        descriptions.push(("毛利率".to_string(), "产品盈利能力".to_string()));
        descriptions.push(("净利率".to_string(), "整体盈利能力".to_string()));
        descriptions.push(("ROE".to_string(), "股东回报率".to_string()));
        descriptions.push(("ROA".to_string(), "资产使用效率".to_string()));
        descriptions.push(("经营杠杆DOL".to_string(), ">1表示正向放大".to_string()));
        descriptions.push(("财务杠杆DFL".to_string(), "接近1表示低风险".to_string()));
        descriptions.push(("总杠杆DTL".to_string(), "综合杠杆效应".to_string()));
        descriptions.push(("DCF企业价值".to_string(), "现金流折现价值".to_string()));
        descriptions.push(("DCF每股价值".to_string(), "企业价值/总股本".to_string()));
        descriptions.push(("唐朝低估价".to_string(), "保守买入价".to_string()));
        descriptions.push(("唐朝高估价".to_string(), "乐观卖出价".to_string()));
        let r = IndicatorDescriptions { descriptions };
        assert(r.table() =~= standard_descriptions());
        r
    }

    /// The note of an indicator; the empty text where it has none.
    pub fn get(&self, key: &str) -> (r: String)
        ensures
            r@ == described(self.table(), key@),
    {
        let ghost table = self.table();
        let mut i: usize = 0;
        proof {
            assert(table.skip(0) =~= table);
        }
        while i < self.descriptions.len()
            invariant
                i <= self.descriptions@.len(),
                table == self.table(),
                described(table, key@) == described(table.skip(i as int), key@),
            decreases self.descriptions@.len() - i,
        {
            proof {
                assert(table.skip(i as int)[0] == table[i as int]);
                assert(table.skip(i as int).drop_first() =~= table.skip(i + 1));
            }
            if *self.descriptions[i].0.as_str() == *key {
                return self.descriptions[i].1.clone();
            }
            i += 1;
        }
        proof {
            assert(table.skip(i as int).len() == 0);
        }
        String::new()
    }
}

} // verus!
