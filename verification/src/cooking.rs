use vstd::prelude::*;
use vstd::string::*;
use crate::i18n::{SmartSpeakerI18nText, I18nView, i18n};
use crate::text::{decimal, decimal_with, with_decimal, concat2, push_decimal};

verus! {

/// How an ingredient behaves when it is measured.
#[derive(Debug, Clone, Copy, PartialEq, Eq, Structural)]
pub enum SmartSpeakerMaterialProperty {
    Solid,
    Liquid,
    Powder,
    Gas,
}

/// The ingredients the recipes use.
#[derive(Debug, Clone, Copy, PartialEq, Eq, Structural)]
pub enum CookingIngredientName {
    Salt,
    Pepper,
    Sugar,
    SoySauce,
    Sesame,
    SesameOil,
    Miso,
    Sake,
    Mirin,
    Carrot,
    Onion,
    Potato,
    Mayonnaise,
}

pub open spec fn ingredient_name_text(n: CookingIngredientName) -> I18nView {
    match n {
        CookingIngredientName::Salt => i18n("salt"@, "塩"@, "盐"@, "소금"@),
        CookingIngredientName::Pepper => i18n("pepper"@, "胡椒"@, "胡椒"@, "후추"@),
        CookingIngredientName::Sugar => i18n("sugar"@, "砂糖"@, "糖"@, "설탕"@),
        CookingIngredientName::SoySauce => i18n("soy sauce"@, "醤油"@, "酱油"@, "간장"@),
        CookingIngredientName::Sesame => i18n("sesame"@, "ごま"@, "芝麻"@, "참깨"@),
        CookingIngredientName::SesameOil => i18n("sesame oil"@, "ごま油"@, "芝麻油"@, "참기름"@),
        CookingIngredientName::Miso => i18n("miso"@, "味噌"@, "味噌"@, "된장"@),
        CookingIngredientName::Sake => i18n("sake"@, "酒"@, "酒"@, "술"@),
        CookingIngredientName::Mirin => i18n("mirin"@, "みりん"@, "味醂"@, "미림"@),
        CookingIngredientName::Carrot => i18n("carrot"@, "人参"@, "胡萝卜"@, "당근"@),
        CookingIngredientName::Onion => i18n("onion"@, "玉ねぎ"@, "洋葱"@, "양파"@),
        CookingIngredientName::Potato => i18n("potato"@, "じゃがいも"@, "土豆"@, "감자"@),
        CookingIngredientName::Mayonnaise => i18n("mayonnaise"@, "マヨネーズ"@, "蛋黄酱"@, "마요네즈"@),
    }
}

pub open spec fn ingredient_template_code(n: CookingIngredientName) -> Seq<char> {
    match n {
        CookingIngredientName::Salt => "salt"@,
        CookingIngredientName::Pepper => "pepper"@,
        CookingIngredientName::Sugar => "sugar"@,
        CookingIngredientName::SoySauce => "soy_sauce"@,
        CookingIngredientName::Sesame => "sesame"@,
        CookingIngredientName::SesameOil => "sesame_oil"@,
        CookingIngredientName::Miso => "miso"@,
        CookingIngredientName::Sake => "sake"@,
        CookingIngredientName::Mirin => "mirin"@,
        CookingIngredientName::Carrot => "carrot"@,
        CookingIngredientName::Onion => "onion"@,
        CookingIngredientName::Potato => "potato"@,
        CookingIngredientName::Mayonnaise => "mayonnaise"@,
    }
}

pub open spec fn material_of(n: CookingIngredientName) -> SmartSpeakerMaterialProperty {
    match n {
        CookingIngredientName::Salt => SmartSpeakerMaterialProperty::Powder,
        CookingIngredientName::Pepper => SmartSpeakerMaterialProperty::Powder,
        CookingIngredientName::Sugar => SmartSpeakerMaterialProperty::Powder,
        CookingIngredientName::SoySauce => SmartSpeakerMaterialProperty::Liquid,
        CookingIngredientName::Sesame => SmartSpeakerMaterialProperty::Powder,
        CookingIngredientName::SesameOil => SmartSpeakerMaterialProperty::Liquid,
        CookingIngredientName::Miso => SmartSpeakerMaterialProperty::Liquid,
        CookingIngredientName::Sake => SmartSpeakerMaterialProperty::Liquid,
        CookingIngredientName::Mirin => SmartSpeakerMaterialProperty::Liquid,
        CookingIngredientName::Carrot => SmartSpeakerMaterialProperty::Solid,
        CookingIngredientName::Onion => SmartSpeakerMaterialProperty::Solid,
        CookingIngredientName::Potato => SmartSpeakerMaterialProperty::Solid,
        CookingIngredientName::Mayonnaise => SmartSpeakerMaterialProperty::Liquid,
    }
}

/// The weight range, in milligrams, of one whole piece of a solid ingredient.
pub open spec fn weight_criteria(n: CookingIngredientName) -> (i32, i32) {
    match n {
        CookingIngredientName::Carrot => (1000, 3000),
        CookingIngredientName::Onion => (2000, 3000),
        CookingIngredientName::Potato => (700, 3000),
        _ => (0, 0),
    }
}

impl CookingIngredientName {
    /// The ingredient's name in each language.
    pub fn to_i18n(&self) -> (r: SmartSpeakerI18nText)
        ensures
            r@ == ingredient_name_text(*self),
    {
        match self {
            CookingIngredientName::Salt => SmartSpeakerI18nText::new().en("salt").ja("塩").zh("盐").ko("소금"),
            CookingIngredientName::Pepper => SmartSpeakerI18nText::new().en("pepper").ja("胡椒").zh("胡椒").ko("후추"),
            CookingIngredientName::Sugar => SmartSpeakerI18nText::new().en("sugar").ja("砂糖").zh("糖").ko("설탕"),
            CookingIngredientName::SoySauce => SmartSpeakerI18nText::new().en("soy sauce").ja("醤油").zh("酱油").ko("간장"),
            CookingIngredientName::Sesame => SmartSpeakerI18nText::new().en("sesame").ja("ごま").zh("芝麻").ko("참깨"),
            CookingIngredientName::SesameOil => SmartSpeakerI18nText::new().en("sesame oil").ja("ごま油").zh("芝麻油").ko("참기름"),
            CookingIngredientName::Miso => SmartSpeakerI18nText::new().en("miso").ja("味噌").zh("味噌").ko("된장"),
            CookingIngredientName::Sake => SmartSpeakerI18nText::new().en("sake").ja("酒").zh("酒").ko("술"),
            CookingIngredientName::Mirin => SmartSpeakerI18nText::new().en("mirin").ja("みりん").zh("味醂").ko("미림"),
            CookingIngredientName::Carrot => SmartSpeakerI18nText::new().en("carrot").ja("人参").zh("胡萝卜").ko("당근"),
            CookingIngredientName::Onion => SmartSpeakerI18nText::new().en("onion").ja("玉ねぎ").zh("洋葱").ko("양파"),
            CookingIngredientName::Potato => SmartSpeakerI18nText::new().en("potato").ja("じゃがいも").zh("土豆").ko("감자"),
            CookingIngredientName::Mayonnaise => SmartSpeakerI18nText::new().en("mayonnaise").ja("マヨネーズ").zh("蛋黄酱").ko("마요네즈"),
        }
    }

    /// The key under which the ingredient's amount is filled into a template.
    pub fn to_template_code(&self) -> (r: String)
        ensures
            r@ == ingredient_template_code(*self),
    {
        match self {
            CookingIngredientName::Salt => String::from_str("salt"),
            CookingIngredientName::Pepper => String::from_str("pepper"),
            CookingIngredientName::Sugar => String::from_str("sugar"),
            CookingIngredientName::SoySauce => String::from_str("soy_sauce"),
            CookingIngredientName::Sesame => String::from_str("sesame"),
            CookingIngredientName::SesameOil => String::from_str("sesame_oil"),
            CookingIngredientName::Miso => String::from_str("miso"),
            CookingIngredientName::Sake => String::from_str("sake"),
            CookingIngredientName::Mirin => String::from_str("mirin"),
            CookingIngredientName::Carrot => String::from_str("carrot"),
            CookingIngredientName::Onion => String::from_str("onion"),
            CookingIngredientName::Potato => String::from_str("potato"),
            CookingIngredientName::Mayonnaise => String::from_str("mayonnaise"),
        }
    }

    /// Whether the ingredient is a solid, a liquid or a powder.
    pub fn to_material_property(&self) -> (r: SmartSpeakerMaterialProperty)
        ensures
            r == material_of(*self),
    {
        match self {
            CookingIngredientName::Salt => SmartSpeakerMaterialProperty::Powder,
            CookingIngredientName::Pepper => SmartSpeakerMaterialProperty::Powder,
            CookingIngredientName::Sugar => SmartSpeakerMaterialProperty::Powder,
            CookingIngredientName::SoySauce => SmartSpeakerMaterialProperty::Liquid,
            CookingIngredientName::Sesame => SmartSpeakerMaterialProperty::Powder,
            CookingIngredientName::SesameOil => SmartSpeakerMaterialProperty::Liquid,
            CookingIngredientName::Miso => SmartSpeakerMaterialProperty::Liquid,
            CookingIngredientName::Sake => SmartSpeakerMaterialProperty::Liquid,
            CookingIngredientName::Mirin => SmartSpeakerMaterialProperty::Liquid,
            CookingIngredientName::Carrot => SmartSpeakerMaterialProperty::Solid,
            CookingIngredientName::Onion => SmartSpeakerMaterialProperty::Solid,
            CookingIngredientName::Potato => SmartSpeakerMaterialProperty::Solid,
            CookingIngredientName::Mayonnaise => SmartSpeakerMaterialProperty::Liquid,
        }
    }

    /// The weight range, in milligrams, of one whole piece; `(0, 0)` for ingredients
    /// that do not come in pieces.
    pub fn get_weight_per_one_criteria(&self) -> (r: (i32, i32))
        ensures
            r == weight_criteria(*self),
    {
        match self {
            CookingIngredientName::Carrot => (1000, 3000),
            CookingIngredientName::Onion => (2000, 3000),
            CookingIngredientName::Potato => (700, 3000),
            _ => (0, 0),
        }
    }
}

/// An amount counted in quarters of a unit: `value` 4 is one whole unit.
#[derive(Debug, Clone, Copy, PartialEq, Eq, Structural)]
pub struct CookingIngredientAmountQuarter {
    pub value: i32,
}

/// Division that rounds toward zero, as integer `/` does.
pub open spec fn trunc_div(v: int, d: int) -> int {
    if v >= 0 { v / d } else { -((-v) / d) }
}

/// The remainder that goes with `trunc_div`, as integer `%` does.
pub open spec fn trunc_rem(v: int, d: int) -> int {
    v - d * trunc_div(v, d)
}

/// How a count of one, two or three quarters is said.
pub open spec fn small_quarter_text(v: int) -> I18nView {
    if v == 1 {
        i18n("a quarter"@, "4分の1"@, "四分之一"@, "사분의 일"@)
    } else if v == 2 {
        i18n("half"@, "二分の一"@, "一半"@, "반"@)
    } else {
        i18n("three quarters"@, "4分の3"@, "四分之三"@, "사분의 삼"@)
    }
}

/// How a count of quarters is said: a fraction below one, else whole units and a
/// fraction.
pub open spec fn quarter_text(v: int) -> I18nView {
    if 1 <= v <= 3 {
        small_quarter_text(v)
    } else {
        let full = decimal(trunc_div(v, 4));
        let rem = trunc_rem(v, 4);
        if rem > 0 {
            let t = small_quarter_text(rem);
            i18n(full + " and "@ + t.en, full + "と"@ + t.ja, full + "和"@ + t.zh, full + "과 "@ + t.ko)
        } else {
            i18n(full, full, full, full)
        }
    }
}

impl CookingIngredientAmountQuarter {
    pub fn new(value: i32) -> (r: Self)
        ensures
            r.value == value,
    {
        CookingIngredientAmountQuarter { value }
    }

    /// The sum of two counts of quarters.
    pub fn add(self, other: Self) -> (r: Self)
        requires
            i32::MIN <= self.value + other.value <= i32::MAX,
        ensures
            r.value == self.value + other.value,
    {
        CookingIngredientAmountQuarter { value: self.value + other.value }
    }

    /// The difference of two counts of quarters.
    pub fn sub(self, other: Self) -> (r: Self)
        requires
            i32::MIN <= self.value - other.value <= i32::MAX,
        ensures
            r.value == self.value - other.value,
    {
        CookingIngredientAmountQuarter { value: self.value - other.value }
    }

    /// How the count is said in each language.
    pub fn to_i18n(&self) -> (r: SmartSpeakerI18nText)
        ensures
            r@ == quarter_text(self.value as int),
        decreases (if 1 <= self.value <= 3 { 0int } else { 1int }),
    {
        let v = self.value;
        if v == 1 {
            SmartSpeakerI18nText::new().en("a quarter").ja("4分の1").zh("四分之一").ko("사분의 일")
        } else if v == 2 {
            SmartSpeakerI18nText::new().en("half").ja("二分の一").zh("一半").ko("반")
        } else if v == 3 {
            SmartSpeakerI18nText::new().en("three quarters").ja("4分の3").zh("四分之三").ko("사분의 삼")
        } else {
            let w: i64 = v as i64;
            let full: i64 = if w >= 0 { w / 4 } else { -((-w) / 4) };
            let rem: i64 = w - 4 * full;
            assert(full == trunc_div(v as int, 4));
            if rem > 0 {
                let t = CookingIngredientAmountQuarter::new(rem as i32).to_i18n();
                let en = decimal_with(full, " and ");
                let en = concat2(en.as_str(), t.en.as_str());
                let ja = decimal_with(full, "と");
                let ja = concat2(ja.as_str(), t.ja.as_str());
                let zh = decimal_with(full, "和");
                let zh = concat2(zh.as_str(), t.zh.as_str());
                let ko = decimal_with(full, "과 ");
                let ko = concat2(ko.as_str(), t.ko.as_str());
                SmartSpeakerI18nText::from_parts(en, ja, zh, ko)
            } else {
                let mut en = String::new();
                push_decimal(&mut en, full);
                let mut ja = String::new();
                push_decimal(&mut ja, full);
                let mut zh = String::new();
                push_decimal(&mut zh, full);
                let mut ko = String::new();
                push_decimal(&mut ko, full);
                assert(en@ =~= decimal(full as int));
                assert(ja@ =~= decimal(full as int));
                assert(zh@ =~= decimal(full as int));
                assert(ko@ =~= decimal(full as int));
                SmartSpeakerI18nText::from_parts(en, ja, zh, ko)
            }
        }
    }
}


/// An amount of an ingredient with its unit.
#[derive(Debug, Clone, Copy, PartialEq, Eq, Structural)]
pub enum CookingIngredientAmount {
    MilliGram(i32),
    MilliLiter(i32),
    Piece(CookingIngredientAmountQuarter),
    Tbsp(CookingIngredientAmountQuarter),
    Tsp(CookingIngredientAmountQuarter),
    Cup(CookingIngredientAmountQuarter),
}

/// Why two amounts could not be added or subtracted.
#[derive(Debug, Clone, Copy, PartialEq, Eq, Structural)]
pub enum AmountError {
    /// The amounts have different exact units.
    DifferentUnit,
    /// One of the amounts is in spoons or cups.
    ApproxUnitNotSupported,
}

pub open spec fn amount_text(a: CookingIngredientAmount) -> I18nView {
    match a {
        CookingIngredientAmount::MilliGram(n) => {
            let d = decimal(n as int);
            i18n(d + " milligram"@, d + "ミリグラム"@, d + "毫克"@, d + "밀리그램"@)
        },
        CookingIngredientAmount::MilliLiter(n) => {
            let d = decimal(n as int);
            i18n(d + " milliliter"@, d + "ミリリットル"@, d + "毫升"@, d + "밀리리터"@)
        },
        CookingIngredientAmount::Piece(q) => {
            let t = quarter_text(q.value as int);
            i18n(t.en + " piece"@, t.ja + "個"@, t.zh + "个"@, t.ko + "개"@)
        },
        CookingIngredientAmount::Tbsp(q) => {
            let t = quarter_text(q.value as int);
            i18n(t.en + " tablespoon"@, "おおさじ"@ + t.ja, "大勺"@ + t.zh, t.ko + "큰술"@)
        },
        CookingIngredientAmount::Tsp(q) => {
            let t = quarter_text(q.value as int);
            i18n(t.en + " teaspoon"@, "こさじ"@ + t.ja, "小勺"@ + t.zh, t.ko + "작은술"@)
        },
        CookingIngredientAmount::Cup(q) => {
            let t = quarter_text(q.value as int);
            i18n(t.en + " cup"@, t.ja + "カップ"@, t.zh + "杯"@, t.ko + "컵"@)
        },
    }
}

pub open spec fn unit_code(a: CookingIngredientAmount) -> Seq<char> {
    match a {
        CookingIngredientAmount::MilliGram(_) => "mg"@,
        CookingIngredientAmount::MilliLiter(_) => "ml"@,
        CookingIngredientAmount::Piece(_) => "p"@,
        CookingIngredientAmount::Tbsp(_) => "tbsp"@,
        CookingIngredientAmount::Tsp(_) => "tsp"@,
        CookingIngredientAmount::Cup(_) => "cup"@,
    }
}

/// Whether an amount is in spoons or cups.
pub open spec fn is_approx_unit(a: CookingIngredientAmount) -> bool {
    a is Tbsp || a is Tsp || a is Cup
}

/// The number an amount carries: milligrams, millilitres or quarters.
pub open spec fn amount_number(a: CookingIngredientAmount) -> int {
    match a {
        CookingIngredientAmount::MilliGram(n) => n as int,
        CookingIngredientAmount::MilliLiter(n) => n as int,
        CookingIngredientAmount::Piece(q) => q.value as int,
        CookingIngredientAmount::Tbsp(q) => q.value as int,
        CookingIngredientAmount::Tsp(q) => q.value as int,
        CookingIngredientAmount::Cup(q) => q.value as int,
    }
}

/// The same amount with the number `n`.
pub open spec fn with_number(a: CookingIngredientAmount, n: int) -> CookingIngredientAmount {
    match a {
        CookingIngredientAmount::MilliGram(_) => CookingIngredientAmount::MilliGram(n as i32),
        CookingIngredientAmount::MilliLiter(_) => CookingIngredientAmount::MilliLiter(n as i32),
        CookingIngredientAmount::Piece(_) => CookingIngredientAmount::Piece(CookingIngredientAmountQuarter { value: n as i32 }),
        CookingIngredientAmount::Tbsp(_) => CookingIngredientAmount::Tbsp(CookingIngredientAmountQuarter { value: n as i32 }),
        CookingIngredientAmount::Tsp(_) => CookingIngredientAmount::Tsp(CookingIngredientAmountQuarter { value: n as i32 }),
        CookingIngredientAmount::Cup(_) => CookingIngredientAmount::Cup(CookingIngredientAmountQuarter { value: n as i32 }),
    }
}

/// Whether two amounts have the same exact unit (milligrams, millilitres or pieces).
pub open spec fn same_exact_unit(a: CookingIngredientAmount, b: CookingIngredientAmount) -> bool {
    (a is MilliGram && b is MilliGram) || (a is MilliLiter && b is MilliLiter) || (a is Piece && b is Piece)
}

/// What combining two amounts gives: the combined number where both have the same
/// exact unit, else why not.
pub open spec fn combine_spec(a: CookingIngredientAmount, b: CookingIngredientAmount, n: int) -> Result<CookingIngredientAmount, AmountError> {
    if is_approx_unit(a) || is_approx_unit(b) {
        Err(AmountError::ApproxUnitNotSupported)
    } else if same_exact_unit(a, b) {
        Ok(with_number(a, n))
    } else {
        Err(AmountError::DifferentUnit)
    }
}

/// What `a.add(b)` gives.
pub open spec fn amount_add_spec(a: CookingIngredientAmount, b: CookingIngredientAmount) -> Result<CookingIngredientAmount, AmountError> {
    combine_spec(a, b, amount_number(a) + amount_number(b))
}

/// What `a.sub(b)` gives.
pub open spec fn amount_sub_spec(a: CookingIngredientAmount, b: CookingIngredientAmount) -> Result<CookingIngredientAmount, AmountError> {
    combine_spec(a, b, amount_number(a) - amount_number(b))
}

pub open spec fn fits_i32(n: int) -> bool {
    i32::MIN <= n <= i32::MAX
}

impl CookingIngredientAmount {
    /// How the amount is said in each language.
    pub fn to_i18n(&self) -> (r: SmartSpeakerI18nText)
        ensures
            r@ == amount_text(*self),
    {
        match self {
            CookingIngredientAmount::MilliGram(amount) => {
                let n = *amount as i64;
                SmartSpeakerI18nText::from_parts(
                    decimal_with(n, " milligram"),
                    decimal_with(n, "ミリグラム"),
                    decimal_with(n, "毫克"),
                    decimal_with(n, "밀리그램"),
                )
            },
            CookingIngredientAmount::MilliLiter(amount) => {
                let n = *amount as i64;
                SmartSpeakerI18nText::from_parts(
                    decimal_with(n, " milliliter"),
                    decimal_with(n, "ミリリットル"),
                    decimal_with(n, "毫升"),
                    decimal_with(n, "밀리리터"),
                )
            },
            CookingIngredientAmount::Piece(amount) => {
                let t = amount.to_i18n();
                SmartSpeakerI18nText::from_parts(
                    concat2(t.en.as_str(), " piece"),
                    concat2(t.ja.as_str(), "個"),
                    concat2(t.zh.as_str(), "个"),
                    concat2(t.ko.as_str(), "개"),
                )
            },
            CookingIngredientAmount::Tbsp(amount) => {
                let t = amount.to_i18n();
                SmartSpeakerI18nText::from_parts(
                    concat2(t.en.as_str(), " tablespoon"),
                    concat2("おおさじ", t.ja.as_str()),
                    concat2("大勺", t.zh.as_str()),
                    concat2(t.ko.as_str(), "큰술"),
                )
            },
            CookingIngredientAmount::Tsp(amount) => {
                let t = amount.to_i18n();
                SmartSpeakerI18nText::from_parts(
                    concat2(t.en.as_str(), " teaspoon"),
                    concat2("こさじ", t.ja.as_str()),
                    concat2("小勺", t.zh.as_str()),
                    concat2(t.ko.as_str(), "작은술"),
                )
            },
            CookingIngredientAmount::Cup(amount) => {
                let t = amount.to_i18n();
                SmartSpeakerI18nText::from_parts(
                    concat2(t.en.as_str(), " cup"),
                    concat2(t.ja.as_str(), "カップ"),
                    concat2(t.zh.as_str(), "杯"),
                    concat2(t.ko.as_str(), "컵"),
                )
            },
        }
    }

    /// The short code of the amount's unit.
    pub fn to_template_code(&self) -> (r: String)
        ensures
            r@ == unit_code(*self),
    {
        match self {
            CookingIngredientAmount::MilliGram(_) => String::from_str("mg"),
            CookingIngredientAmount::MilliLiter(_) => String::from_str("ml"),
            CookingIngredientAmount::Piece(_) => String::from_str("p"),
            CookingIngredientAmount::Tbsp(_) => String::from_str("tbsp"),
            CookingIngredientAmount::Tsp(_) => String::from_str("tsp"),
            CookingIngredientAmount::Cup(_) => String::from_str("cup"),
        }
    }

    /// The sum of two amounts of the same exact unit.
    pub fn add(&self, rhs: CookingIngredientAmount) -> (r: Result<CookingIngredientAmount, AmountError>)
        requires
            amount_add_spec(*self, rhs) is Ok ==> fits_i32(amount_number(*self) + amount_number(rhs)),
        ensures
            r == amount_add_spec(*self, rhs),
    {
        match self {
            CookingIngredientAmount::MilliGram(left) => match rhs {
                CookingIngredientAmount::MilliGram(right) => Ok(CookingIngredientAmount::MilliGram(*left + right)),
                CookingIngredientAmount::MilliLiter(_) => Err(AmountError::DifferentUnit),
                CookingIngredientAmount::Piece(_) => Err(AmountError::DifferentUnit),
                _ => Err(AmountError::ApproxUnitNotSupported),
            },
            CookingIngredientAmount::MilliLiter(left) => match rhs {
                CookingIngredientAmount::MilliGram(_) => Err(AmountError::DifferentUnit),
                CookingIngredientAmount::MilliLiter(right) => Ok(CookingIngredientAmount::MilliLiter(*left + right)),
                CookingIngredientAmount::Piece(_) => Err(AmountError::DifferentUnit),
                _ => Err(AmountError::ApproxUnitNotSupported),
            },
            CookingIngredientAmount::Piece(left) => match rhs {
                CookingIngredientAmount::MilliGram(_) => Err(AmountError::DifferentUnit),
                CookingIngredientAmount::MilliLiter(_) => Err(AmountError::DifferentUnit),
                CookingIngredientAmount::Piece(right) => Ok(CookingIngredientAmount::Piece(left.add(right))),
                _ => Err(AmountError::ApproxUnitNotSupported),
            },
            _ => Err(AmountError::ApproxUnitNotSupported),
        }
    }

    /// The difference of two amounts of the same exact unit.
    pub fn sub(&self, rhs: CookingIngredientAmount) -> (r: Result<CookingIngredientAmount, AmountError>)
        requires
            amount_sub_spec(*self, rhs) is Ok ==> fits_i32(amount_number(*self) - amount_number(rhs)),
        ensures
            r == amount_sub_spec(*self, rhs),
    {
        match self {
            CookingIngredientAmount::MilliGram(left) => match rhs {
                CookingIngredientAmount::MilliGram(right) => Ok(CookingIngredientAmount::MilliGram(*left - right)),
                CookingIngredientAmount::MilliLiter(_) => Err(AmountError::DifferentUnit),
                CookingIngredientAmount::Piece(_) => Err(AmountError::DifferentUnit),
                _ => Err(AmountError::ApproxUnitNotSupported),
            },
            CookingIngredientAmount::MilliLiter(left) => match rhs {
                CookingIngredientAmount::MilliGram(_) => Err(AmountError::DifferentUnit),
                CookingIngredientAmount::MilliLiter(right) => Ok(CookingIngredientAmount::MilliLiter(*left - right)),
                CookingIngredientAmount::Piece(_) => Err(AmountError::DifferentUnit),
                _ => Err(AmountError::ApproxUnitNotSupported),
            },
            CookingIngredientAmount::Piece(left) => match rhs {
                CookingIngredientAmount::MilliGram(_) => Err(AmountError::DifferentUnit),
                CookingIngredientAmount::MilliLiter(_) => Err(AmountError::DifferentUnit),
                CookingIngredientAmount::Piece(right) => Ok(CookingIngredientAmount::Piece(left.sub(right))),
                _ => Err(AmountError::ApproxUnitNotSupported),
            },
            _ => Err(AmountError::ApproxUnitNotSupported),
        }
    }

    /// The amount without its sign (spoons, cups and pieces are kept as they are).
    pub fn abs(&self) -> (r: CookingIngredientAmount)
        requires
            (*self is MilliGram || *self is MilliLiter) ==> amount_number(*self) != i32::MIN,
        ensures
            r == (match *self {
                CookingIngredientAmount::MilliGram(n) => CookingIngredientAmount::MilliGram((if n < 0 { -n } else { n as int }) as i32),
                CookingIngredientAmount::MilliLiter(n) => CookingIngredientAmount::MilliLiter((if n < 0 { -n } else { n as int }) as i32),
                other => other,
            }),
    {
        match self {
            CookingIngredientAmount::MilliGram(amount) => CookingIngredientAmount::MilliGram(if *amount < 0 { -*amount } else { *amount }),
            CookingIngredientAmount::MilliLiter(amount) => CookingIngredientAmount::MilliLiter(if *amount < 0 { -*amount } else { *amount }),
            CookingIngredientAmount::Piece(amount) => CookingIngredientAmount::Piece(*amount),
            CookingIngredientAmount::Tbsp(amount) => CookingIngredientAmount::Tbsp(*amount),
            CookingIngredientAmount::Tsp(amount) => CookingIngredientAmount::Tsp(*amount),
            CookingIngredientAmount::Cup(amount) => CookingIngredientAmount::Cup(*amount),
        }
    }
}


/// `a / b` rounded to the nearest integer, halves away from zero.
pub open spec fn round_half_away(a: int, b: int) -> int {
    let n = if a >= 0 { a } else { -a };
    let d = if b >= 0 { b } else { -b };
    let m = (2 * n + d) / (2 * d);
    if (a >= 0) == (b >= 0) || a == 0 { m } else { -m }
}

/// `x` held to the range of `i32`.
pub open spec fn saturate_i32(x: int) -> int {
    if x > i32::MAX { i32::MAX as int } else if x < i32::MIN { i32::MIN as int } else { x }
}

/// How many quarters of `rhs` the amount `lhs` is, rounded, and at least one;
/// no quarters at all where `rhs` is zero.
pub open spec fn approx_quarter_value(lhs: i32, rhs: i32) -> int {
    if rhs == 0 {
        0
    } else {
        let q = saturate_i32(round_half_away(4 * lhs, rhs as int));
        if q < 1 { 1 } else { q }
    }
}

/// How many quarters of the base `rhs` the amount `lhs` comes to (with a base of
/// 1000: 250 is one quarter, 1000 is four), rounded to the nearest quarter and at
/// least one quarter.
pub fn amount_to_approx_quarter(lhs: i32, rhs: i32) -> (r: CookingIngredientAmountQuarter)
    ensures
        r.value == approx_quarter_value(lhs, rhs),
{
    if rhs == 0 {
        return CookingIngredientAmountQuarter::new(0);
    }
    let a: i64 = 4 * (lhs as i64);
    let n: u64 = if a >= 0 { a as u64 } else { (-a) as u64 };
    let d: u64 = if rhs >= 0 { rhs as u64 } else { (-(rhs as i64)) as u64 };
    let m: u64 = (2 * n + d) / (2 * d);
    assert(m <= 2 * n + d) by (nonlinear_arith)
        requires
            d >= 1,
            m == (2 * n + d) / (2 * d);
    let rounded: i64 = if (a >= 0) == (rhs >= 0) || a == 0 { m as i64 } else { -(m as i64) };
    let saturated: i32 = if rounded > 2147483647 {
        2147483647
    } else if rounded < -2147483648 {
        -2147483648
    } else {
        rounded as i32
    };
    let clamped: i32 = if saturated < 1 { 1 } else { saturated };
    CookingIngredientAmountQuarter::new(clamped)
}

/// An ingredient and how much of it a recipe needs.
#[derive(Debug, Clone, Copy, PartialEq, Eq, Structural)]
pub struct CookingIngredient {
    pub name: CookingIngredientName,
    pub unit: CookingIngredientAmount,
}

/// The amount, in spoons or pieces, in which an ingredient is said: powders and
/// liquids in teaspoons below one tablespoon and in tablespoons above, solids in
/// quarter pieces (one whole piece within the range of one piece's weight), and
/// every other amount as it is.
pub open spec fn approx_unit_of(i: CookingIngredient) -> CookingIngredientAmount {
    match i.unit {
        CookingIngredientAmount::MilliGram(amount) => match material_of(i.name) {
            SmartSpeakerMaterialProperty::Powder => if amount < 150 {
                CookingIngredientAmount::Tsp(CookingIngredientAmountQuarter { value: approx_quarter_value(amount, 50) as i32 })
            } else {
                CookingIngredientAmount::Tbsp(CookingIngredientAmountQuarter { value: approx_quarter_value(amount, 150) as i32 })
            },
            SmartSpeakerMaterialProperty::Solid => {
                let c = weight_criteria(i.name);
                if c.0 <= amount < c.1 {
                    CookingIngredientAmount::Piece(CookingIngredientAmountQuarter { value: 4 })
                } else {
                    CookingIngredientAmount::Piece(CookingIngredientAmountQuarter { value: approx_quarter_value(amount, c.0) as i32 })
                }
            },
            _ => i.unit,
        },
        CookingIngredientAmount::MilliLiter(amount) => match material_of(i.name) {
            SmartSpeakerMaterialProperty::Liquid => if amount < 15 {
                CookingIngredientAmount::Tsp(CookingIngredientAmountQuarter { value: approx_quarter_value(amount, 5) as i32 })
            } else {
                CookingIngredientAmount::Tbsp(CookingIngredientAmountQuarter { value: approx_quarter_value(amount, 15) as i32 })
            },
            _ => i.unit,
        },
        _ => i.unit,
    }
}

impl CookingIngredient {
    pub fn new(name: CookingIngredientName, unit: CookingIngredientAmount) -> (r: Self)
        ensures
            r == (CookingIngredient { name, unit }),
    {
        CookingIngredient { name, unit }
    }

    /// How the amount is said, in spoons or pieces where that is how a cook measures it.
    pub fn to_approx_unit_i18n(&self) -> (r: SmartSpeakerI18nText)
        ensures
            r@ == amount_text(approx_unit_of(*self)),
    {
        match self.unit {
            CookingIngredientAmount::MilliGram(amount) => match self.name.to_material_property() {
                SmartSpeakerMaterialProperty::Powder => {
                    if amount < 150 {
                        CookingIngredientAmount::Tsp(amount_to_approx_quarter(amount, 50)).to_i18n()
                    } else {
                        CookingIngredientAmount::Tbsp(amount_to_approx_quarter(amount, 150)).to_i18n()
                    }
                },
                SmartSpeakerMaterialProperty::Solid => {
                    let criteria = self.name.get_weight_per_one_criteria();
                    if criteria.0 <= amount && amount < criteria.1 {
                        CookingIngredientAmount::Piece(CookingIngredientAmountQuarter::new(4)).to_i18n()
                    } else {
                        CookingIngredientAmount::Piece(amount_to_approx_quarter(amount, criteria.0)).to_i18n()
                    }
                },
                _ => self.unit.to_i18n(),
            },
            CookingIngredientAmount::MilliLiter(amount) => match self.name.to_material_property() {
                SmartSpeakerMaterialProperty::Liquid => {
                    if amount < 15 {
                        CookingIngredientAmount::Tsp(amount_to_approx_quarter(amount, 5)).to_i18n()
                    } else {
                        CookingIngredientAmount::Tbsp(amount_to_approx_quarter(amount, 15)).to_i18n()
                    }
                },
                _ => self.unit.to_i18n(),
            },
            _ => self.unit.to_i18n(),
        }
    }
}

/// How long an amount of an ingredient cooks; `time` counts tenths of a minute
/// (10 is one minute).
#[derive(Debug, Clone, Copy, PartialEq, Eq, Structural)]
pub struct CookingIngredientTime {
    pub base: CookingIngredient,
    pub time: u32,
}

/// The seconds said with a cooking time: the leftover tenths of a minute in
/// seconds (six each), rounded to the nearest ten (nine tenths, 54 seconds, are
/// said as 50 seconds).
pub open spec fn time_seconds(t: u32) -> int {
    let remaining = (t % 10) * 6;
    ((remaining + 4) / 10) * 10
}

/// How a cooking time is said: minutes, and the seconds where there are any.
pub open spec fn human_time_text(t: u32) -> I18nView {
    let m = decimal((t / 10) as int);
    let s = time_seconds(t);
    if s > 0 {
        let d = decimal(s);
        i18n(m + " minutes "@ + d + " seconds"@, m + "分"@ + d + "秒"@, m + "分"@ + d + "秒"@, m + "분"@ + d + "초"@)
    } else {
        i18n(m + " minutes"@, m + "分"@, m + "分"@, m + "분"@)
    }
}

impl CookingIngredientTime {
    pub fn new(base: CookingIngredient, time: u32) -> (r: Self)
        ensures
            r == (CookingIngredientTime { base, time }),
    {
        CookingIngredientTime { base, time }
    }

    /// How the time is said in each language.
    pub fn to_human_time(&self) -> (r: SmartSpeakerI18nText)
        ensures
            r@ == human_time_text(self.time),
    {
        let minutes: i64 = (self.time / 10) as i64;
        let remaining_seconds: u32 = (self.time % 10) * 6;
        let rounded_seconds: u32 = ((remaining_seconds + 4) / 10) * 10;
        if rounded_seconds > 0 {
            let s = rounded_seconds as i64;
            let en = decimal_with(minutes, " minutes ");
            let en = with_decimal(en.as_str(), s, " seconds");
            let ja = decimal_with(minutes, "分");
            let ja = with_decimal(ja.as_str(), s, "秒");
            let zh = decimal_with(minutes, "分");
            let zh = with_decimal(zh.as_str(), s, "秒");
            let ko = decimal_with(minutes, "분");
            let ko = with_decimal(ko.as_str(), s, "초");
            SmartSpeakerI18nText::from_parts(en, ja, zh, ko)
        } else {
            SmartSpeakerI18nText::from_parts(
                decimal_with(minutes, " minutes"),
                decimal_with(minutes, "分"),
                decimal_with(minutes, "分"),
                decimal_with(minutes, "분"),
            )
        }
    }
}

/// A main ingredient and the seasonings whose amounts follow it.
#[derive(Debug, PartialEq)]
pub struct CookingIngredientLinkComponent {
    pub main: CookingIngredient,
    pub components: Vec<CookingIngredient>,
}

impl CookingIngredientLinkComponent {
    pub fn new(main: CookingIngredient, components: Vec<CookingIngredient>) -> (r: Self)
        ensures
            r.main == main,
            r.components@ == components@,
    {
        CookingIngredientLinkComponent { main, components }
    }
}

impl Clone for CookingIngredientLinkComponent {
    fn clone(&self) -> (r: Self)
        ensures
            r.main == self.main,
            r.components@ == self.components@,
    {
        CookingIngredientLinkComponent { main: self.main, components: crate::messages::copy_vec(&self.components) }
    }
}

/// Adding an amount and then taking it away again gives the amount back, where the
/// sum is an `i32`.
pub proof fn lemma_add_then_sub(a: CookingIngredientAmount, b: CookingIngredientAmount)
    requires
        amount_add_spec(a, b) is Ok,
        fits_i32(amount_number(a) + amount_number(b)),
    ensures
        amount_sub_spec(amount_add_spec(a, b)->Ok_0, b) == Ok::<CookingIngredientAmount, AmountError>(a),
{
    let c = amount_add_spec(a, b)->Ok_0;
    assert(amount_number(c) == amount_number(a) + amount_number(b));
}

/// An amount said in quarters is at least one quarter, where it has a base.
pub proof fn lemma_quarter_at_least_one(lhs: i32, rhs: i32)
    requires
        rhs != 0,
    ensures
        approx_quarter_value(lhs, rhs) >= 1,
{
}

} // verus!
