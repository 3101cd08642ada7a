use vstd::prelude::*;
use crate::action::{StepAction, StepView};
use crate::cooking::{CookingIngredient, CookingIngredientAmount, CookingIngredientLinkComponent, CookingIngredientName,
    CookingIngredientTime};
use crate::cooking_step::{CookingActionDetail, DetailView, ExplainRecipeAction, ExplainView, MeasureView,
    VisionBasedIngredientMeasureAction, measure_defined};
use crate::i18n::{SmartSpeakerI18nText, I18nView, i18n};
use crate::intent::{IntentCookingMenu, menu_text};
use crate::text::{concat2, concat3};
use crate::vision::{DetectableObject, DetectionDetail, DetectionMode, VisionAction, VisionObject};

verus! {

/// The fixed texts that the recipes say.
#[derive(Debug, Clone, Copy, PartialEq, Eq, Structural)]
pub enum RecipeText {
    Ingredients,
    ThankYou,
    MeasureResult,
    Plate,
    Done,
    CarrotPrepare,
    CarrotHandsAway,
    CarrotCut,
    CarrotShowPiece,
    CarrotBoil,
    CarrotMix,
    PotatoPrepare,
    PotatoHandsAway,
    PotatoCut,
    PotatoShowPiece,
    PotatoBoil,
    PotatoMix,
}

/// Each fixed recipe text in the four languages.
pub open spec fn recipe_text(t: RecipeText) -> I18nView {
    match t {
        RecipeText::Ingredients => i18n(
            "Let's start explaining ingredients. {{additional_explain}} is required. If you want to hear it again, please say 'tell me again'."@,
            "食材の説明を始めます。{{additional_explain}} が必要です。もう一度聞きたい場合は、「もう一度教えて」と言ってください。"@,
            "让我们开始解释食材。{{additional_explain}} 是必需的。如果你想再听一遍，请说“再告诉我一遍”。"@,
            "요리 재료 설명을 시작합니다. {{additional_explain}} 가 필요합니다. 다시 한 번 들으시려면 '다시 알려 줘' 라고 말씀해주세요."@,
        ),
        RecipeText::ThankYou => i18n(
            "Thank you."@,
            "ありがとうございます。"@,
            "谢谢。"@,
            "감사합니다."@,
        ),
        RecipeText::MeasureResult => i18n(
            "{{measure_result}} I'll keep that in mind for the rest of the instructions."@,
            "{{measure_result}} 残りの説明のために覚えておきます。"@,
            "{{measure_result}} 我会记住剩下的说明。"@,
            "{{measure_result}} 이후의 설명에 참고하도록 하겠습니다."@,
        ),
        RecipeText::Plate => i18n(
            "Put the finished dish on a plate."@,
            "完成した料理をきれいにお皿に盛り付けます。"@,
            "把做好的菜放在盘子里。"@,
            "완성된 요리를 보기 좋게 접시에 담아주세요."@,
        ),
        RecipeText::Done => i18n(
            "It's done. Bon appetit."@,
            "完成です。おいしく召し上がってください。"@,
            "完成了。请享用。"@,
            "완성입니다. 맛있게 드세요."@,
        ),
        RecipeText::CarrotPrepare => i18n(
            "First, prepare the carrots."@,
            "まず人参　を用意します。"@,
            "首先准备胡萝卜。"@,
            "먼저 당근을 준비합니다."@,
        ),
        RecipeText::CarrotHandsAway => i18n(
            "If the carrots are ready on the chopping board, can you move your hands back so that I can see? Let me know when you are ready."@,
            "まな板の上に人参が用意できたら、私にも見えるように手をどけてくれますか？ 準備ができたら教えてください。"@,
            "如果胡萝卜准备好了，你能把手拿开让我看看吗？ 准备好后请告诉我。"@,
            "도마 위에 당근이 준비되었다면, 저도 볼 수 있게 손을 치워주실 수 있나요? 준비가 되면 알려주세요."@,
        ),
        RecipeText::CarrotCut => i18n(
            "Please continue to cut the carrots into bite-sized pieces."@,
            "続いて、人参を食べやすい大きさに切ってください。"@,
            "请继续把胡萝卜切成一口大小。"@,
            "계속해서 당근을 먹기 좋은 크기로 썰어주세요."@,
        ),
        RecipeText::CarrotShowPiece => i18n(
            "Can you show me just one piece so I can see how you cut the carrot? When you're ready, look at the carrot and let me know."@,
            "人参をどのように切ったか、私にも1こだけを見せてもらえますか？ 準備ができたら、人参を見て教えてください。"@,
            "你能给我看一块胡萝卜吗？ 准备好后，请看着胡萝卜告诉我。"@,
            "당근을 어떻게 자르셨는지 저도 볼 수 있게 한 조각만 보여주실 수 있나요? 준비가 되면 당근을 바라본 채 알려주세요."@,
        ),
        RecipeText::CarrotBoil => i18n(
            "Boil the carrots in boiling water for about {{time}}."@,
            "人参を沸いた水に、。。。約、。。。{{time}}間、。。。茹でます。"@,
            "把胡萝卜放在沸水里煮、。。。约、。。。{{time}}钟。"@,
            "손질한 당근을 끓는 물에 약 {{time}}간 삶아주세요."@,
        ),
        RecipeText::CarrotMix => i18n(
            "Put the boiled carrots in a bowl and add {{salt}} of salt,    {{pepper}} of pepper,    and {{sesame_oil}} of sesame oil."@,
            "茹でた人参をボウルに入れて塩　{{salt}}、　　　コショウ　{{pepper}}、　　　ごま油　{{sesame_oil}}　　　を入れて混ぜます。"@,
            "把煮好的胡萝卜放在碗里，加{{salt}}的盐，   {{pepper}}的胡椒粉，   {{sesame_oil}}的芝麻油，并搅拌。"@,
            "삶은 당근을 보울에 담아 소금 {{salt}},    후추 {{pepper}},    참기름 {{sesame_oil}}을 넣고 섞어주세요."@,
        ),
        RecipeText::PotatoPrepare => i18n(
            "First, prepare the potatoes."@,
            "まずじゃがいも　を用意します。"@,
            "首先准备土豆。"@,
            "먼저 감자를 준비합니다."@,
        ),
        RecipeText::PotatoHandsAway => i18n(
            "If the potatoes are ready on the chopping board, can you move your hands back so that I can see? Let me know when you are ready."@,
            "まな板の上にじゃがいもが用意できたら、私にも見えるように手をどけてくれますか？ 準備ができたら教えてください。"@,
            "如果土豆准备好了，你能把手拿开让我看看吗？ 准备好后请告诉我。"@,
            "도마 위에 감자가 준비되었다면, 저도 볼 수 있게 손을 치워주실 수 있나요? 준비가 되면 알려주세요."@,
        ),
        RecipeText::PotatoCut => i18n(
            "Please continue to cut the potatoes into bite-sized pieces."@,
            "続いて、じゃがいもを食べやすい大きさに切ってください。"@,
            "请继续把土豆切成一口大小。"@,
            "계속해서 감자를 먹기 좋은 크기로 썰어주세요."@,
        ),
        RecipeText::PotatoShowPiece => i18n(
            "Can you show me just one piece so I can see how you cut the potato? When you're ready, look at the potato and let me know."@,
            "じゃがいもをどのように切ったか、私にも1こだけを見せてもらえますか？ 準備ができたら、じゃがいもを見て教えてください。"@,
            "你能给我看一块土豆吗？ 准备好后，请看着土豆告诉我。"@,
            "감자를 어떻게 자르셨는지 저도 볼 수 있게 한 조각만 보여주실 수 있나요? 준비가 되면 감자를 바라본 채 알려주세요."@,
        ),
        RecipeText::PotatoBoil => i18n(
            "Boil the potatoes in boiling water for about {{time}}."@,
            "じゃがいもを沸いた水に、。。。約、。。。{{time}}間、。。。茹でます。"@,
            "把土豆放在沸水里煮、。。。约、。。。{{time}}钟。"@,
            "손질한 감자를 끓는 물에 약 {{time}}간 삶아주세요."@,
        ),
        RecipeText::PotatoMix => i18n(
            "Put the boiled potatoes in a bowl and add {{salt}} of salt,    {{pepper}} of pepper,    and {{mayonnaise}} of mayonnaise."@,
            "茹でたじゃがいもをボウルに入れて塩　{{salt}}、　　　コショウ　{{pepper}}、　　　マヨネーズ　{{mayonnaise}}　　　を入れて混ぜます。"@,
            "把煮好的土豆放在碗里，加{{salt}}的盐，   {{pepper}}的胡椒粉，   {{mayonnaise}}的蛋黄酱，并搅拌。"@,
            "삶은 감자를 보울에 담아 소금 {{salt}},    후추 {{pepper}},    마요네즈 {{mayonnaise}}을 넣고 섞어주세요."@,
        ),
    }
}

impl RecipeText {
    /// The text in the four languages.
    pub fn to_i18n(&self) -> (r: SmartSpeakerI18nText)
        ensures
            r@ == recipe_text(*self),
    {
        match self {
            RecipeText::Ingredients => SmartSpeakerI18nText::new()
                .en("Let's start explaining ingredients. {{additional_explain}} is required. If you want to hear it again, please say 'tell me again'.")
                .ja("食材の説明を始めます。{{additional_explain}} が必要です。もう一度聞きたい場合は、「もう一度教えて」と言ってください。")
                .zh("让我们开始解释食材。{{additional_explain}} 是必需的。如果你想再听一遍，请说“再告诉我一遍”。")
                .ko("요리 재료 설명을 시작합니다. {{additional_explain}} 가 필요합니다. 다시 한 번 들으시려면 '다시 알려 줘' 라고 말씀해주세요."),
            RecipeText::ThankYou => SmartSpeakerI18nText::new()
                .en("Thank you.")
                .ja("ありがとうございます。")
                .zh("谢谢。")
                .ko("감사합니다."),
            RecipeText::MeasureResult => SmartSpeakerI18nText::new()
                .en("{{measure_result}} I'll keep that in mind for the rest of the instructions.")
                .ja("{{measure_result}} 残りの説明のために覚えておきます。")
                .zh("{{measure_result}} 我会记住剩下的说明。")
                .ko("{{measure_result}} 이후의 설명에 참고하도록 하겠습니다."),
            RecipeText::Plate => SmartSpeakerI18nText::new()
                .en("Put the finished dish on a plate.")
                .ja("完成した料理をきれいにお皿に盛り付けます。")
                .zh("把做好的菜放在盘子里。")
                .ko("완성된 요리를 보기 좋게 접시에 담아주세요."),
            RecipeText::Done => SmartSpeakerI18nText::new()
                .en("It's done. Bon appetit.")
                .ja("完成です。おいしく召し上がってください。")
                .zh("完成了。请享用。")
                .ko("완성입니다. 맛있게 드세요."),
            RecipeText::CarrotPrepare => SmartSpeakerI18nText::new()
                .en("First, prepare the carrots.")
                .ja("まず人参　を用意します。")
                .zh("首先准备胡萝卜。")
                .ko("먼저 당근을 준비합니다."),
            RecipeText::CarrotHandsAway => SmartSpeakerI18nText::new()
                .en("If the carrots are ready on the chopping board, can you move your hands back so that I can see? Let me know when you are ready.")
                .ja("まな板の上に人参が用意できたら、私にも見えるように手をどけてくれますか？ 準備ができたら教えてください。")
                .zh("如果胡萝卜准备好了，你能把手拿开让我看看吗？ 准备好后请告诉我。")
                .ko("도마 위에 당근이 준비되었다면, 저도 볼 수 있게 손을 치워주실 수 있나요? 준비가 되면 알려주세요."),
            RecipeText::CarrotCut => SmartSpeakerI18nText::new()
                .en("Please continue to cut the carrots into bite-sized pieces.")
                .ja("続いて、人参を食べやすい大きさに切ってください。")
                .zh("请继续把胡萝卜切成一口大小。")
                .ko("계속해서 당근을 먹기 좋은 크기로 썰어주세요."),
            RecipeText::CarrotShowPiece => SmartSpeakerI18nText::new()
                .en("Can you show me just one piece so I can see how you cut the carrot? When you're ready, look at the carrot and let me know.")
                .ja("人参をどのように切ったか、私にも1こだけを見せてもらえますか？ 準備ができたら、人参を見て教えてください。")
                .zh("你能给我看一块胡萝卜吗？ 准备好后，请看着胡萝卜告诉我。")
                .ko("당근을 어떻게 자르셨는지 저도 볼 수 있게 한 조각만 보여주실 수 있나요? 준비가 되면 당근을 바라본 채 알려주세요."),
            RecipeText::CarrotBoil => SmartSpeakerI18nText::new()
                .en("Boil the carrots in boiling water for about {{time}}.")
                .ja("人参を沸いた水に、。。。約、。。。{{time}}間、。。。茹でます。")
                .zh("把胡萝卜放在沸水里煮、。。。约、。。。{{time}}钟。")
                .ko("손질한 당근을 끓는 물에 약 {{time}}간 삶아주세요."),
            RecipeText::CarrotMix => SmartSpeakerI18nText::new()
                .en("Put the boiled carrots in a bowl and add {{salt}} of salt,    {{pepper}} of pepper,    and {{sesame_oil}} of sesame oil.")
                .ja("茹でた人参をボウルに入れて塩　{{salt}}、　　　コショウ　{{pepper}}、　　　ごま油　{{sesame_oil}}　　　を入れて混ぜます。")
                .zh("把煮好的胡萝卜放在碗里，加{{salt}}的盐，   {{pepper}}的胡椒粉，   {{sesame_oil}}的芝麻油，并搅拌。")
                .ko("삶은 당근을 보울에 담아 소금 {{salt}},    후추 {{pepper}},    참기름 {{sesame_oil}}을 넣고 섞어주세요."),
            RecipeText::PotatoPrepare => SmartSpeakerI18nText::new()
                .en("First, prepare the potatoes.")
                .ja("まずじゃがいも　を用意します。")
                .zh("首先准备土豆。")
                .ko("먼저 감자를 준비합니다."),
            RecipeText::PotatoHandsAway => SmartSpeakerI18nText::new()
                .en("If the potatoes are ready on the chopping board, can you move your hands back so that I can see? Let me know when you are ready.")
                .ja("まな板の上にじゃがいもが用意できたら、私にも見えるように手をどけてくれますか？ 準備ができたら教えてください。")
                .zh("如果土豆准备好了，你能把手拿开让我看看吗？ 准备好后请告诉我。")
                .ko("도마 위에 감자가 준비되었다면, 저도 볼 수 있게 손을 치워주실 수 있나요? 준비가 되면 알려주세요."),
            RecipeText::PotatoCut => SmartSpeakerI18nText::new()
                .en("Please continue to cut the potatoes into bite-sized pieces.")
                .ja("続いて、じゃがいもを食べやすい大きさに切ってください。")
                .zh("请继续把土豆切成一口大小。")
                .ko("계속해서 감자를 먹기 좋은 크기로 썰어주세요."),
            RecipeText::PotatoShowPiece => SmartSpeakerI18nText::new()
                .en("Can you show me just one piece so I can see how you cut the potato? When you're ready, look at the potato and let me know.")
                .ja("じゃがいもをどのように切ったか、私にも1こだけを見せてもらえますか？ 準備ができたら、じゃがいもを見て教えてください。")
                .zh("你能给我看一块土豆吗？ 准备好后，请看着土豆告诉我。")
                .ko("감자를 어떻게 자르셨는지 저도 볼 수 있게 한 조각만 보여주실 수 있나요? 준비가 되면 감자를 바라본 채 알려주세요."),
            RecipeText::PotatoBoil => SmartSpeakerI18nText::new()
                .en("Boil the potatoes in boiling water for about {{time}}.")
                .ja("じゃがいもを沸いた水に、。。。約、。。。{{time}}間、。。。茹でます。")
                .zh("把土豆放在沸水里煮、。。。约、。。。{{time}}钟。")
                .ko("손질한 감자를 끓는 물에 약 {{time}}간 삶아주세요."),
            RecipeText::PotatoMix => SmartSpeakerI18nText::new()
                .en("Put the boiled potatoes in a bowl and add {{salt}} of salt,    {{pepper}} of pepper,    and {{mayonnaise}} of mayonnaise.")
                .ja("茹でたじゃがいもをボウルに入れて塩　{{salt}}、　　　コショウ　{{pepper}}、　　　マヨネーズ　{{mayonnaise}}　　　を入れて混ぜます。")
                .zh("把煮好的土豆放在碗里，加{{salt}}的盐，   {{pepper}}的胡椒粉，   {{mayonnaise}}的蛋黄酱，并搅拌。")
                .ko("삶은 감자를 보울에 담아 소금 {{salt}},    후추 {{pepper}},    마요네즈 {{mayonnaise}}을 넣고 섞어주세요."),
        }
    }
}

/// What is said when a dish's cooking starts.
pub open spec fn intro_text(m: IntentCookingMenu) -> I18nView {
    let n = menu_text(m);
    i18n(
        "Let's start "@ + n.en + " cooking. You don't have to call me 'Hey Ringo' from now on. Please let me know if you want to proceed to the next step by answering 'OK' or 'Next'."@,
        n.ja + " 料理を始めます。 これからは「ヘイ、リンゴ」と呼ばなくてもいいです。 次の作業に進みたい場合は、「OK」や「次」などの答えで教えてください。"@,
        "开始"@ + n.zh + "烹饪。 从现在开始，你不必叫我“嘿，拎郭”。 如果你想继续下一步，请回答　“可以”　或　“接下来”。"@,
        n.ko + " 요리를 시작합니다. 지금부터는 '헤이 링고' 로 저를 부르지 않아도 됩니다. 다음 작업으로 넘어가려면 '오케이' 또는 '다음' 과 같은 대답으로 알려주세요."@,
    )
}

fn intro(m: IntentCookingMenu) -> (r: SmartSpeakerI18nText)
    ensures
        r@ == intro_text(m),
{
    let n = m.to_i18n();
    SmartSpeakerI18nText::from_parts(
        concat3("Let's start ", n.en.as_str(), " cooking. You don't have to call me 'Hey Ringo' from now on. Please let me know if you want to proceed to the next step by answering 'OK' or 'Next'."),
        concat2(n.ja.as_str(), " 料理を始めます。 これからは「ヘイ、リンゴ」と呼ばなくてもいいです。 次の作業に進みたい場合は、「OK」や「次」などの答えで教えてください。"),
        concat3("开始", n.zh.as_str(), "烹饪。 从现在开始，你不必叫我“嘿，拎郭”。 如果你想继续下一步，请回答　“可以”　或　“接下来”。"),
        concat2(n.ko.as_str(), " 요리를 시작합니다. 지금부터는 '헤이 링고' 로 저를 부르지 않아도 됩니다. 다음 작업으로 넘어가려면 '오케이' 또는 '다음' 과 같은 대답으로 알려주세요."),
    )
}

/// The ingredients a dish needs: its main ingredient first, then its seasonings.
pub open spec fn menu_ingredients(m: IntentCookingMenu) -> Seq<CookingIngredient> {
    match m {
        IntentCookingMenu::CarrotSalad => seq![
            CookingIngredient { name: CookingIngredientName::Carrot, unit: CookingIngredientAmount::MilliGram(1000) },
            CookingIngredient { name: CookingIngredientName::Salt, unit: CookingIngredientAmount::MilliGram(50) },
            CookingIngredient { name: CookingIngredientName::Pepper, unit: CookingIngredientAmount::MilliGram(50) },
            CookingIngredient { name: CookingIngredientName::SesameOil, unit: CookingIngredientAmount::MilliLiter(5) },
        ],
        IntentCookingMenu::PotatoSalad => seq![
            CookingIngredient { name: CookingIngredientName::Potato, unit: CookingIngredientAmount::MilliGram(700) },
            CookingIngredient { name: CookingIngredientName::Salt, unit: CookingIngredientAmount::MilliGram(50) },
            CookingIngredient { name: CookingIngredientName::Pepper, unit: CookingIngredientAmount::MilliGram(50) },
            CookingIngredient { name: CookingIngredientName::Mayonnaise, unit: CookingIngredientAmount::MilliLiter(30) },
        ],
    }
}

impl IntentCookingMenu {
    /// The ingredients the dish needs.
    pub fn to_ingredient(&self) -> (r: Vec<CookingIngredient>)
        ensures
            r@ == menu_ingredients(*self),
    {
        let mut v: Vec<CookingIngredient> = Vec::new();
        match self {
            IntentCookingMenu::CarrotSalad => {
                v.push(CookingIngredient::new(CookingIngredientName::Carrot, CookingIngredientAmount::MilliGram(1000)));
                v.push(CookingIngredient::new(CookingIngredientName::Salt, CookingIngredientAmount::MilliGram(50)));
                v.push(CookingIngredient::new(CookingIngredientName::Pepper, CookingIngredientAmount::MilliGram(50)));
                v.push(CookingIngredient::new(CookingIngredientName::SesameOil, CookingIngredientAmount::MilliLiter(5)));
            },
            IntentCookingMenu::PotatoSalad => {
                v.push(CookingIngredient::new(CookingIngredientName::Potato, CookingIngredientAmount::MilliGram(700)));
                v.push(CookingIngredient::new(CookingIngredientName::Salt, CookingIngredientAmount::MilliGram(50)));
                v.push(CookingIngredient::new(CookingIngredientName::Pepper, CookingIngredientAmount::MilliGram(50)));
                v.push(CookingIngredient::new(CookingIngredientName::Mayonnaise, CookingIngredientAmount::MilliLiter(30)));
            },
        }
        assert(v@ =~= menu_ingredients(*self));
        v
    }
}

/// The per-dish parts of a recipe: the object the vision looks for, the weight of
/// a cut piece, the amount a cooking time is given for, and the dish's own texts
/// (prepare, hands away, cut, show a piece, boil, mix).
pub open spec fn dish_object(m: IntentCookingMenu) -> DetectableObject {
    match m {
        IntentCookingMenu::CarrotSalad => DetectableObject::Carrot,
        IntentCookingMenu::PotatoSalad => DetectableObject::Potato,
    }
}

/// The weight of one cut piece of the dish's main ingredient.
pub open spec fn piece_of(m: IntentCookingMenu) -> CookingIngredient {
    match m {
        IntentCookingMenu::CarrotSalad => CookingIngredient { name: CookingIngredientName::Carrot, unit: CookingIngredientAmount::MilliGram(100) },
        IntentCookingMenu::PotatoSalad => CookingIngredient { name: CookingIngredientName::Potato, unit: CookingIngredientAmount::MilliGram(150) },
    }
}

/// How long the dish's main ingredient boils, for the amount it is given for.
pub open spec fn boil_time_of(m: IntentCookingMenu) -> CookingIngredientTime {
    match m {
        IntentCookingMenu::CarrotSalad => CookingIngredientTime {
            base: CookingIngredient { name: CookingIngredientName::Carrot, unit: CookingIngredientAmount::MilliGram(150) },
            time: 80,
        },
        IntentCookingMenu::PotatoSalad => CookingIngredientTime {
            base: CookingIngredient { name: CookingIngredientName::Potato, unit: CookingIngredientAmount::MilliGram(100) },
            time: 80,
        },
    }
}

/// The dish's own texts, in the order prepare, hands away, cut, show a piece,
/// boil, mix.
pub open spec fn dish_texts(m: IntentCookingMenu) -> Seq<RecipeText> {
    match m {
        IntentCookingMenu::CarrotSalad => seq![RecipeText::CarrotPrepare, RecipeText::CarrotHandsAway, RecipeText::CarrotCut,
            RecipeText::CarrotShowPiece, RecipeText::CarrotBoil, RecipeText::CarrotMix],
        IntentCookingMenu::PotatoSalad => seq![RecipeText::PotatoPrepare, RecipeText::PotatoHandsAway, RecipeText::PotatoCut,
            RecipeText::PotatoShowPiece, RecipeText::PotatoBoil, RecipeText::PotatoMix],
    }
}

/// A recipe step that explains, not yet fed.
pub open spec fn explain_step(ings: Seq<CookingIngredient>, detail: DetailView, tts: I18nView) -> StepView {
    StepView::ExplainRecipe(ExplainView {
        ingredients: ings,
        detail,
        tts,
        content: None,
        revision: None,
        cancelled: false,
        repeat_requested: false,
    })
}

/// A recipe step that says a fixed text.
pub open spec fn say(t: RecipeText) -> StepView {
    explain_step(Seq::empty(), DetailView::Nothing, recipe_text(t))
}

/// A recipe step that weighs `target` as the vision sees `object`, not yet fed.
pub open spec fn measure_step(target: CookingIngredient, object: DetectableObject) -> StepView {
    StepView::MeasureIngredient(MeasureView {
        ingredients: seq![target],
        detail: DetailView::MeasureIngredientSize,
        vision_action: VisionAction::ObjectDetection(DetectionDetail {
            detection_mode: DetectionMode::Aruco,
            detectable: object,
            gaze_assist: true,
        }),
        tts: recipe_text(RecipeText::MeasureResult),
        content: None,
        revision: None,
        cancelled: false,
        repeat_requested: false,
    })
}

/// The steps of a dish: prepare (then, with the vision, hands away, thanks and
/// weighing the whole ingredient), cut (then, with the vision, show a piece,
/// thanks and weighing the piece), boil for a time that follows the weight, and
/// mix in seasonings whose amounts follow it.
pub open spec fn dish_steps(m: IntentCookingMenu, vision: bool) -> Seq<StepView> {
    let t = dish_texts(m);
    let main = menu_ingredients(m)[0];
    seq![say(t[0])]
        + (if vision { seq![say(t[1]), say(RecipeText::ThankYou), measure_step(main, dish_object(m))] } else { Seq::empty() })
        + seq![say(t[2])]
        + (if vision { seq![say(t[3]), say(RecipeText::ThankYou), measure_step(piece_of(m), dish_object(m))] } else { Seq::empty() })
        + seq![
            explain_step(seq![main], DetailView::ExplainMutableTime(boil_time_of(m)), recipe_text(t[4])),
            explain_step(menu_ingredients(m), DetailView::ExplainMutableIngredient(main, menu_ingredients(m).drop_first()), recipe_text(t[5])),
        ]
}

/// All the steps of cooking a dish: the introduction, the ingredients, the dish's
/// own steps, plating and the end.
pub open spec fn recipe_steps(m: IntentCookingMenu, vision: bool) -> Seq<StepView> {
    seq![
        explain_step(Seq::empty(), DetailView::Nothing, intro_text(m)),
        explain_step(menu_ingredients(m), DetailView::ExplainNonMutableIngredient, recipe_text(RecipeText::Ingredients)),
    ] + dish_steps(m, vision) + seq![say(RecipeText::Plate), say(RecipeText::Done)]
}

/// The views of a list of steps.
pub open spec fn steps_view(v: Seq<StepAction>) -> Seq<StepView> {
    v.map_values(|s: StepAction| s@)
}

/// Builds the steps of a recipe, with or without the vision.
pub struct CookingStepBuilder {
    pub vision: bool,
}

fn say_step(t: RecipeText) -> (r: StepAction)
    ensures
        r@ == say(t),
{
    StepAction::ExplainRecipe(ExplainRecipeAction::new(Vec::new(), CookingActionDetail::Nothing, t.to_i18n()))
}

fn measure_action(target: CookingIngredient, object: DetectableObject) -> (r: StepAction)
    ensures
        r@ == measure_step(target, object),
{
    let mut ings: Vec<CookingIngredient> = Vec::new();
    ings.push(target);
    assert(ings@ =~= seq![target]);
    StepAction::MeasureIngredient(VisionBasedIngredientMeasureAction::new(
        ings,
        CookingActionDetail::MeasureIngredientSize,
        VisionAction::ObjectDetection(DetectionDetail::new(DetectionMode::Aruco, object, true)),
        RecipeText::MeasureResult.to_i18n(),
    ))
}

fn push_step(steps: &mut Vec<StepAction>, s: StepAction)
    ensures
        steps_view(final(steps)@) == steps_view(old(steps)@).push(s@),
{
    let ghost before = steps@;
    steps.push(s);
    assert(steps_view(steps@) =~= steps_view(before).push(s@));
}

impl CookingStepBuilder {
    pub fn new(vision: bool) -> (r: Self)
        ensures
            r.vision == vision,
    {
        CookingStepBuilder { vision }
    }

    fn build_dish(&self, menu: IntentCookingMenu, steps: &mut Vec<StepAction>)
        ensures
            steps_view(final(steps)@) == steps_view(old(steps)@) + dish_steps(menu, self.vision),
    {
        let ghost start = steps_view(steps@);
        let (object, prepare, hands, cut, show, boil, mix) = match menu {
            IntentCookingMenu::CarrotSalad => (DetectableObject::Carrot, RecipeText::CarrotPrepare, RecipeText::CarrotHandsAway,
                RecipeText::CarrotCut, RecipeText::CarrotShowPiece, RecipeText::CarrotBoil, RecipeText::CarrotMix),
            IntentCookingMenu::PotatoSalad => (DetectableObject::Potato, RecipeText::PotatoPrepare, RecipeText::PotatoHandsAway,
                RecipeText::PotatoCut, RecipeText::PotatoShowPiece, RecipeText::PotatoBoil, RecipeText::PotatoMix),
        };
        let ingredients = menu.to_ingredient();
        let main = ingredients[0];
        let (piece, boil_time) = match menu {
            IntentCookingMenu::CarrotSalad => (
                CookingIngredient::new(CookingIngredientName::Carrot, CookingIngredientAmount::MilliGram(100)),
                CookingIngredientTime::new(CookingIngredient::new(CookingIngredientName::Carrot, CookingIngredientAmount::MilliGram(150)), 80),
            ),
            IntentCookingMenu::PotatoSalad => (
                CookingIngredient::new(CookingIngredientName::Potato, CookingIngredientAmount::MilliGram(150)),
                CookingIngredientTime::new(CookingIngredient::new(CookingIngredientName::Potato, CookingIngredientAmount::MilliGram(100)), 80),
            ),
        };
        push_step(steps, say_step(prepare));
        if self.vision {
            push_step(steps, say_step(hands));
            push_step(steps, say_step(RecipeText::ThankYou));
            push_step(steps, measure_action(main, object));
        }
        push_step(steps, say_step(cut));
        if self.vision {
            push_step(steps, say_step(show));
            push_step(steps, say_step(RecipeText::ThankYou));
            push_step(steps, measure_action(piece, object));
        }
        let mut mains: Vec<CookingIngredient> = Vec::new();
        mains.push(main);
        assert(mains@ =~= seq![main]);
        push_step(steps, StepAction::ExplainRecipe(ExplainRecipeAction::new(
            mains, CookingActionDetail::ExplainMutableTime(boil_time), boil.to_i18n())));
        let mut seasonings: Vec<CookingIngredient> = Vec::new();
        seasonings.push(ingredients[1]);
        seasonings.push(ingredients[2]);
        seasonings.push(ingredients[3]);
        assert(seasonings@ =~= menu_ingredients(menu).drop_first());
        let link = CookingIngredientLinkComponent::new(main, seasonings);
        push_step(steps, StepAction::ExplainRecipe(ExplainRecipeAction::new(
            ingredients, CookingActionDetail::ExplainMutableIngredient(link), mix.to_i18n())));
        assert(steps_view(steps@) =~= start + dish_steps(menu, self.vision));
    }

    /// The steps of cooking `menu`.
    pub fn build(&self, menu: IntentCookingMenu) -> (r: Vec<StepAction>)
        ensures
            steps_view(r@) == recipe_steps(menu, self.vision),
    {
        let mut steps: Vec<StepAction> = Vec::new();
        assert(steps_view(steps@) =~= Seq::<StepView>::empty());
        push_step(&mut steps, StepAction::ExplainRecipe(ExplainRecipeAction::new(Vec::new(), CookingActionDetail::Nothing, intro(menu))));
        push_step(&mut steps, StepAction::ExplainRecipe(ExplainRecipeAction::new(
            menu.to_ingredient(), CookingActionDetail::ExplainNonMutableIngredient, RecipeText::Ingredients.to_i18n())));
        self.build_dish(menu, &mut steps);
        push_step(&mut steps, say_step(RecipeText::Plate));
        push_step(&mut steps, say_step(RecipeText::Done));
        assert(steps_view(steps@) =~= recipe_steps(menu, self.vision));
        steps
    }
}

/// Every step of a recipe is a recipe step that has taken nothing in yet.
pub proof fn lemma_recipe_steps_unfed(m: IntentCookingMenu, vision: bool)
    ensures
        forall|i: int| 0 <= i < recipe_steps(m, vision).len() ==> #[trigger] crate::cooking_task::step_unfed(recipe_steps(m, vision)[i]),
{
    let s = recipe_steps(m, vision);
    assert forall|i: int| 0 <= i < s.len() implies #[trigger] crate::cooking_task::step_unfed(s[i]) by {
        let d = dish_steps(m, vision);
        let head = seq![
            explain_step(Seq::empty(), DetailView::Nothing, intro_text(m)),
            explain_step(menu_ingredients(m), DetailView::ExplainNonMutableIngredient, recipe_text(RecipeText::Ingredients)),
        ];
        let tail = seq![say(RecipeText::Plate), say(RecipeText::Done)];
        if i < 2 {
            assert(s[i] == head[i]);
        } else if i < 2 + d.len() {
            assert(s[i] == d[i - 2]);
            let t = dish_texts(m);
            let main = menu_ingredients(m)[0];
            let a = seq![say(t[0])];
            let b: Seq<StepView> = if vision { seq![say(t[1]), say(RecipeText::ThankYou), measure_step(main, dish_object(m))] } else { Seq::empty() };
            let c = seq![say(t[2])];
            let e: Seq<StepView> = if vision { seq![say(t[3]), say(RecipeText::ThankYou), measure_step(piece_of(m), dish_object(m))] } else { Seq::empty() };
            let f = seq![
                explain_step(seq![main], DetailView::ExplainMutableTime(boil_time_of(m)), recipe_text(t[4])),
                explain_step(menu_ingredients(m), DetailView::ExplainMutableIngredient(main, menu_ingredients(m).drop_first()), recipe_text(t[5])),
            ];
            assert(d == a + b + c + e + f);
            let j = i - 2;
            if j < 1 {
                assert(d[j] == a[j]);
            } else if j < 1 + b.len() {
                assert(d[j] == b[j - 1]);
            } else if j < 2 + b.len() {
                assert(d[j] == c[j - 1 - b.len()]);
            } else if j < 2 + b.len() + e.len() {
                assert(d[j] == e[j - 2 - b.len()]);
            } else {
                assert(d[j] == f[j - 2 - b.len() - e.len()]);
            }
        } else {
            assert(s[i] == tail[i - 2 - d.len()]);
        }
    }
}

/// A recipe has eight steps without the vision and fourteen with it; it starts
/// with the introduction and ends with the end of the dish; it weighs only with
/// the vision.
pub proof fn lemma_recipe_shape(m: IntentCookingMenu, vision: bool)
    ensures
        recipe_steps(m, vision).len() == (if vision { 14int } else { 8int }),
        recipe_steps(m, vision)[0] == explain_step(Seq::empty(), DetailView::Nothing, intro_text(m)),
        recipe_steps(m, vision).last() == say(RecipeText::Done),
        forall|i: int| 0 <= i < recipe_steps(m, vision).len() && (#[trigger] recipe_steps(m, vision)[i]) is MeasureIngredient ==> vision,
{
    let s = recipe_steps(m, vision);
    assert forall|i: int| 0 <= i < s.len() && (#[trigger] s[i]) is MeasureIngredient implies vision by {
        if !vision {
            let t = dish_texts(m);
            let main = menu_ingredients(m)[0];
            let expected = seq![
                explain_step(Seq::empty(), DetailView::Nothing, intro_text(m)),
                explain_step(menu_ingredients(m), DetailView::ExplainNonMutableIngredient, recipe_text(RecipeText::Ingredients)),
                say(t[0]),
                say(t[2]),
                explain_step(seq![main], DetailView::ExplainMutableTime(boil_time_of(m)), recipe_text(t[4])),
                explain_step(menu_ingredients(m), DetailView::ExplainMutableIngredient(main, menu_ingredients(m).drop_first()), recipe_text(t[5])),
                say(RecipeText::Plate),
                say(RecipeText::Done),
            ];
            assert(dish_steps(m, vision) =~= expected.subrange(2, 6));
            assert(s =~= expected);
        }
    }
}

/// Every weighing step of a recipe weighs the dish's own ingredient, which the
/// recipe gives in milligrams; so it can weigh whatever it sees of that
/// ingredient whose weight differs from the recipe's by an `i32`.
pub proof fn lemma_recipe_measures_defined(m: IntentCookingMenu, vision: bool, i: int, contents: Seq<VisionObject>)
    requires
        0 <= i < recipe_steps(m, vision).len(),
        recipe_steps(m, vision)[i] is MeasureIngredient,
        contents.len() > 0 ==> contents[0].object_type == dish_object(m),
        contents.len() > 0 ==> i32::MIN + 1000 < contents[0].estimated_weight_mg,
    ensures
        measure_defined(recipe_steps(m, vision)[i]->MeasureIngredient_0, contents),
{
    let s = recipe_steps(m, vision);
    lemma_recipe_shape(m, vision);
    let t = dish_texts(m);
    let main = menu_ingredients(m)[0];
    let expected = seq![
        explain_step(Seq::empty(), DetailView::Nothing, intro_text(m)),
        explain_step(menu_ingredients(m), DetailView::ExplainNonMutableIngredient, recipe_text(RecipeText::Ingredients)),
        say(t[0]),
        say(t[1]),
        say(RecipeText::ThankYou),
        measure_step(main, dish_object(m)),
        say(t[2]),
        say(t[3]),
        say(RecipeText::ThankYou),
        measure_step(piece_of(m), dish_object(m)),
        explain_step(seq![main], DetailView::ExplainMutableTime(boil_time_of(m)), recipe_text(t[4])),
        explain_step(menu_ingredients(m), DetailView::ExplainMutableIngredient(main, menu_ingredients(m).drop_first()), recipe_text(t[5])),
        say(RecipeText::Plate),
        say(RecipeText::Done),
    ];
    assert(dish_steps(m, true) =~= expected.subrange(2, 12));
    assert(s =~= expected);
    assert(i == 5 || i == 9);
}

} // verus!
