use vstd::prelude::*;
use vstd::string::*;
use crate::i18n::{SmartSpeakerI18nText, I18nView, i18n};
use crate::text::concat3;

verus! {

/// How objects are found in a frame.
#[derive(Debug, Clone, Copy, PartialEq, Eq, Structural)]
pub enum DetectionMode {
    Nothing,
    Aruco,
}

/// The things the vision can look for.
#[derive(Debug, Clone, Copy, PartialEq, Eq, Structural)]
pub enum DetectableObject {
    Carrot,
    Potato,
    HumanSkin,
}

pub open spec fn detectable_text(o: DetectableObject) -> I18nView {
    match o {
        DetectableObject::Carrot => i18n("carrot"@, "にんじん"@, "胡萝卜"@, "당근"@),
        DetectableObject::Potato => i18n("potato"@, "じゃがいも"@, "土豆"@, "감자"@),
        DetectableObject::HumanSkin => i18n("human skin"@, "人肌"@, "人皮"@, "인간의 피부"@),
    }
}

impl DetectableObject {
    /// The object's name in each language.
    pub fn to_i18n(&self) -> (r: SmartSpeakerI18nText)
        ensures
            r@ == detectable_text(*self),
    {
        match self {
            DetectableObject::Carrot => SmartSpeakerI18nText::new()
                .en("carrot")
                .ja("にんじん")
                .zh("胡萝卜")
                .ko("당근"),
            DetectableObject::Potato => SmartSpeakerI18nText::new()
                .en("potato")
                .ja("じゃがいも")
                .zh("土豆")
                .ko("감자"),
            DetectableObject::HumanSkin => SmartSpeakerI18nText::new()
                .en("human skin")
                .ja("人肌")
                .zh("人皮")
                .ko("인간의 피부"),
        }
    }
}

/// What to look for, and how.
#[derive(Debug, Clone, Copy, PartialEq, Eq, Structural)]
pub struct DetectionDetail {
    pub detection_mode: DetectionMode,
    pub detectable: DetectableObject,
    pub gaze_assist: bool,
}

impl DetectionDetail {
    pub fn new(detection_mode: DetectionMode, detectable: DetectableObject, gaze_assist: bool) -> (r: Self)
        ensures
            r == (DetectionDetail { detection_mode, detectable, gaze_assist }),
    {
        DetectionDetail { detection_mode, detectable, gaze_assist }
    }
}

/// A request to the vision.
#[derive(Debug, Clone, Copy, PartialEq, Eq, Structural)]
pub enum VisionAction {
    Nothing,
    ObjectDetection(DetectionDetail),
}

pub open spec fn vision_action_text(a: VisionAction) -> I18nView {
    match a {
        VisionAction::Nothing => i18n("nothing"@, "何も"@, "什么都没有"@, "아무것도 없음"@),
        VisionAction::ObjectDetection(d) => {
            let t = detectable_text(d.detectable);
            i18n(
                t.en + " with aruco"@,
                "アルコで"@ + t.ja + "を検出"@,
                "使用 aruco 检测"@ + t.zh,
                "aruco로 "@ + t.ko + "를 감지"@,
            )
        },
    }
}

impl VisionAction {
    /// What the request looks for, in each language.
    pub fn to_i18n(&self) -> (r: SmartSpeakerI18nText)
        ensures
            r@ == vision_action_text(*self),
    {
        match self {
            VisionAction::Nothing => SmartSpeakerI18nText::new()
                .en("nothing")
                .ja("何も")
                .zh("什么都没有")
                .ko("아무것도 없음"),
            VisionAction::ObjectDetection(object) => {
                let t = object.detectable.to_i18n();
                let en = concat3("", t.en.as_str(), " with aruco");
                let ja = concat3("アルコで", t.ja.as_str(), "を検出");
                let zh = concat3("使用 aruco 检测", t.zh.as_str(), "");
                let ko = concat3("aruco로 ", t.ko.as_str(), "를 감지");
                proof {
                    reveal_strlit("");
                    assert(en@ =~= t@.en + " with aruco"@);
                    assert(zh@ =~= "使用 aruco 检测"@ + t@.zh);
                }
                SmartSpeakerI18nText::from_parts(en, ja, zh, ko)
            },
        }
    }

    /// The object the request looks for, if any.
    pub fn expose_object(&self) -> (r: Option<DetectableObject>)
        ensures
            r == (match *self {
                VisionAction::Nothing => None,
                VisionAction::ObjectDetection(d) => Some(d.detectable),
            }),
    {
        match self {
            VisionAction::Nothing => None,
            VisionAction::ObjectDetection(detail) => Some(detail.detectable),
        }
    }
}

/// The measured size of an object. Each field holds the bits of a 32-bit
/// floating-point number (perimeter in square centimetres, width and height in
/// centimetres), measured outside the library.
#[derive(Debug, Clone, Copy, PartialEq, Eq, Structural)]
pub struct VisionObjectSize {
    pub perimeter: u32,
    pub width: u32,
    pub height: u32,
}

impl VisionObjectSize {
    pub fn new(perimeter: u32, width: u32, height: u32) -> (r: Self)
        ensures
            r == (VisionObjectSize { perimeter, width, height }),
    {
        VisionObjectSize { perimeter, width, height }
    }
}

/// The outline of an object.
#[derive(Debug, Clone, Copy, PartialEq, Eq, Structural)]
pub enum VisionObjectShape {
    Triangle,
    Square,
    Rectangle,
    Circle,
    SemiCircle,
}

pub open spec fn shape_text(s: VisionObjectShape) -> I18nView {
    match s {
        VisionObjectShape::Triangle => i18n("triangle"@, "三角形"@, "三角形"@, "삼각형"@),
        VisionObjectShape::Square => i18n("square"@, "正方形"@, "正方形"@, "정사각형"@),
        VisionObjectShape::Rectangle => i18n("rectangle"@, "長方形"@, "长方形"@, "직사각형"@),
        VisionObjectShape::Circle => i18n("circle"@, "円形"@, "圆形"@, "원형"@),
        VisionObjectShape::SemiCircle => i18n("semi-circle"@, "半円形"@, "半圆形"@, "반원형"@),
    }
}

impl VisionObjectShape {
    /// The shape's name in each language.
    pub fn to_i18n(&self) -> (r: SmartSpeakerI18nText)
        ensures
            r@ == shape_text(*self),
    {
        match self {
            VisionObjectShape::Triangle => SmartSpeakerI18nText::new()
                .en("triangle")
                .ja("三角形")
                .zh("三角形")
                .ko("삼각형"),
            VisionObjectShape::Square => SmartSpeakerI18nText::new()
                .en("square")
                .ja("正方形")
                .zh("正方形")
                .ko("정사각형"),
            VisionObjectShape::Rectangle => SmartSpeakerI18nText::new()
                .en("rectangle")
                .ja("長方形")
                .zh("长方形")
                .ko("직사각형"),
            VisionObjectShape::Circle => SmartSpeakerI18nText::new()
                .en("circle")
                .ja("円形")
                .zh("圆形")
                .ko("원형"),
            VisionObjectShape::SemiCircle => SmartSpeakerI18nText::new()
                .en("semi-circle")
                .ja("半円形")
                .zh("半圆形")
                .ko("반원형"),
        }
    }
}

/// An object the vision found. `estimated_weight_mg` is the weight, in milligrams,
/// that the measured perimeter suggests for the ingredient the object shows; it is
/// computed with floating-point arithmetic outside the library.
#[derive(Debug, Clone, Copy, PartialEq, Eq, Structural)]
pub struct VisionObject {
    pub object_type: DetectableObject,
    pub size: VisionObjectSize,
    pub shape: VisionObjectShape,
    pub estimated_weight_mg: i32,
}

impl VisionObject {
    pub fn new(object_type: DetectableObject, size: VisionObjectSize, shape: VisionObjectShape, estimated_weight_mg: i32) -> (r: Self)
        ensures
            r == (VisionObject { object_type, size, shape, estimated_weight_mg }),
    {
        VisionObject { object_type, size, shape, estimated_weight_mg }
    }
}

} // verus!
