use vas_got_vision::cooking::{
    amount_to_approx_quarter, AmountError, CookingIngredient, CookingIngredientAmount, CookingIngredientAmountQuarter,
    CookingIngredientName, CookingIngredientTime, SmartSpeakerMaterialProperty,
};

fn q(v: i32) -> CookingIngredientAmountQuarter {
    CookingIngredientAmountQuarter::new(v)
}

#[test]
fn quarters_of_a_base() {
    // with a base of 1000, the quarters are 250, 500, 750 and 1000
    assert_eq!(amount_to_approx_quarter(250, 1000).value, 1);
    assert_eq!(amount_to_approx_quarter(500, 1000).value, 2);
    assert_eq!(amount_to_approx_quarter(750, 1000).value, 3);
    assert_eq!(amount_to_approx_quarter(1000, 1000).value, 4);
    assert_eq!(amount_to_approx_quarter(1, 1000).value, 1);
    assert_eq!(amount_to_approx_quarter(1130, 1000).value, 5);
    assert_eq!(amount_to_approx_quarter(100, 0).value, 0);
}

#[test]
fn quarter_texts() {
    assert_eq!(q(1).to_i18n().en, "a quarter");
    assert_eq!(q(2).to_i18n().ja, "二分の一");
    assert_eq!(q(3).to_i18n().zh, "四分之三");
    assert_eq!(q(4).to_i18n().en, "1");
    assert_eq!(q(6).to_i18n().en, "1 and half");
    assert_eq!(q(9).to_i18n().ko, "2과 사분의 일");
    assert_eq!(q(9).to_i18n().ja, "2と4分の1");
}

#[test]
fn amount_texts_and_codes() {
    assert_eq!(CookingIngredientAmount::MilliGram(50).to_i18n().en, "50 milligram");
    assert_eq!(CookingIngredientAmount::MilliLiter(5).to_i18n().ja, "5ミリリットル");
    assert_eq!(CookingIngredientAmount::Piece(q(4)).to_i18n().zh, "1个");
    assert_eq!(CookingIngredientAmount::Tbsp(q(2)).to_i18n().ja, "おおさじ二分の一");
    assert_eq!(CookingIngredientAmount::Tsp(q(1)).to_i18n().ko, "사분의 일작은술");
    assert_eq!(CookingIngredientAmount::Cup(q(8)).to_i18n().en, "2 cup");
    assert_eq!(CookingIngredientAmount::Tsp(q(1)).to_template_code(), "tsp");
    assert_eq!(CookingIngredientAmount::MilliGram(1).to_template_code(), "mg");
}

#[test]
fn amounts_add_and_sub() {
    let mg = CookingIngredientAmount::MilliGram;
    assert_eq!(mg(300).add(mg(200)), Ok(mg(500)));
    assert_eq!(mg(300).sub(mg(500)), Ok(mg(-200)));
    assert_eq!(mg(300).add(mg(200)).unwrap().sub(mg(200)), Ok(mg(300)));
    assert_eq!(CookingIngredientAmount::Piece(q(3)).add(CookingIngredientAmount::Piece(q(2))), Ok(CookingIngredientAmount::Piece(q(5))));
    assert_eq!(mg(1).add(CookingIngredientAmount::MilliLiter(1)), Err(AmountError::DifferentUnit));
    assert_eq!(mg(1).sub(CookingIngredientAmount::Tsp(q(1))), Err(AmountError::ApproxUnitNotSupported));
    assert_eq!(CookingIngredientAmount::Cup(q(1)).add(mg(1)), Err(AmountError::ApproxUnitNotSupported));
    assert_eq!(mg(-40).abs(), mg(40));
    assert_eq!(CookingIngredientAmount::Tbsp(q(1)).abs(), CookingIngredientAmount::Tbsp(q(1)));
}

#[test]
fn ingredient_properties() {
    assert_eq!(CookingIngredientName::Salt.to_material_property(), SmartSpeakerMaterialProperty::Powder);
    assert_eq!(CookingIngredientName::SesameOil.to_material_property(), SmartSpeakerMaterialProperty::Liquid);
    assert_eq!(CookingIngredientName::Potato.to_material_property(), SmartSpeakerMaterialProperty::Solid);
    assert_eq!(CookingIngredientName::SoySauce.to_template_code(), "soy_sauce");
    assert_eq!(CookingIngredientName::Carrot.to_i18n().ja, "人参");
    assert_eq!(CookingIngredientName::Onion.get_weight_per_one_criteria(), (2000, 3000));
    assert_eq!(CookingIngredientName::Salt.get_weight_per_one_criteria(), (0, 0));
}

#[test]
fn approximate_units() {
    let ing = |name, unit| CookingIngredient::new(name, unit);
    // powders: teaspoons below a tablespoon (150 mg), tablespoons above
    assert_eq!(ing(CookingIngredientName::Salt, CookingIngredientAmount::MilliGram(50)).to_approx_unit_i18n().en, "1 teaspoon");
    assert_eq!(ing(CookingIngredientName::Sugar, CookingIngredientAmount::MilliGram(300)).to_approx_unit_i18n().en, "2 tablespoon");
    // liquids: the same with 5 ml and 15 ml
    assert_eq!(ing(CookingIngredientName::SesameOil, CookingIngredientAmount::MilliLiter(5)).to_approx_unit_i18n().en, "1 teaspoon");
    assert_eq!(ing(CookingIngredientName::Mayonnaise, CookingIngredientAmount::MilliLiter(30)).to_approx_unit_i18n().ja, "おおさじ2");
    // solids: one piece within the weight of one, else quarters of a piece
    assert_eq!(ing(CookingIngredientName::Carrot, CookingIngredientAmount::MilliGram(1000)).to_approx_unit_i18n().en, "1 piece");
    assert_eq!(ing(CookingIngredientName::Carrot, CookingIngredientAmount::MilliGram(500)).to_approx_unit_i18n().en, "half piece");
    assert_eq!(ing(CookingIngredientName::Potato, CookingIngredientAmount::MilliGram(150)).to_approx_unit_i18n().en, "a quarter piece");
    // other amounts as they are
    assert_eq!(ing(CookingIngredientName::Salt, CookingIngredientAmount::MilliLiter(3)).to_approx_unit_i18n().en, "3 milliliter");
}

#[test]
fn cooking_times() {
    let base = CookingIngredient::new(CookingIngredientName::Carrot, CookingIngredientAmount::MilliGram(150));
    let t = |time| CookingIngredientTime::new(base, time).to_human_time();
    assert_eq!(t(80).en, "8 minutes");
    assert_eq!(t(80).ko, "8분");
    // nine tenths of a minute, 54 seconds, are said as 50 seconds
    assert_eq!(t(9).en, "0 minutes 50 seconds");
    // 5 tenths are half a minute
    assert_eq!(t(105).ja, "10分30秒");
    assert_eq!(t(1).zh, "0分10秒");
}
