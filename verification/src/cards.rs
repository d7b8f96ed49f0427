//! Images of the cards: a drawing for each major card, and a placeholder that
//! shows rank and suit for each minor one.

use crate::encoding::{decimal_text, push_decimal};
use vstd::prelude::*;
use vstd::string::StringExecFns;

verus! {

/// Drawing of The Fool.
pub const THE_FOOL_SVG: &'static str = "<svg width=\"100\" height=\"150\" xmlns=\"http://www.w3.org/2000/svg\">\n  <rect width=\"100\" height=\"150\" fill=\"#1a1a2e\" stroke=\"#ffd700\" stroke-width=\"2\"/>\n  <circle cx=\"50\" cy=\"75\" r=\"25\" fill=\"none\" stroke=\"#ffd700\" stroke-width=\"3\"/>\n  <text x=\"50\" y=\"25\" text-anchor=\"middle\" fill=\"#ffd700\" font-size=\"14\" font-weight=\"bold\">0</text>\n  <text x=\"50\" y=\"135\" text-anchor=\"middle\" fill=\"#ffd700\" font-size=\"10\" font-weight=\"bold\">FOOL</text>\n</svg>";

/// Drawing of The Magician.
pub const THE_MAGICIAN_SVG: &'static str = "<svg width=\"100\" height=\"150\" xmlns=\"http://www.w3.org/2000/svg\">\n  <rect width=\"100\" height=\"150\" fill=\"#1a1a2e\" stroke=\"#ffd700\" stroke-width=\"2\"/>\n  <polygon points=\"50,40 58,60 42,60\" fill=\"none\" stroke=\"#ffd700\" stroke-width=\"3\"/>\n  <polygon points=\"50,90 60,110 40,110\" fill=\"none\" stroke=\"#ffd700\" stroke-width=\"3\"/>\n  <text x=\"50\" y=\"25\" text-anchor=\"middle\" fill=\"#ffd700\" font-size=\"14\" font-weight=\"bold\">I</text>\n  <text x=\"50\" y=\"135\" text-anchor=\"middle\" fill=\"#ffd700\" font-size=\"9\" font-weight=\"bold\">MAGICIAN</text>\n</svg>";

/// Drawing of The High Priestess.
pub const THE_HIGH_PRIESTESS_SVG: &'static str = "<svg width=\"100\" height=\"150\" xmlns=\"http://www.w3.org/2000/svg\">\n  <rect width=\"100\" height=\"150\" fill=\"#1a1a2e\" stroke=\"#ffd700\" stroke-width=\"2\"/>\n  <path d=\"M 30 60 Q 50 40 70 60\" fill=\"none\" stroke=\"#ffd700\" stroke-width=\"3\"/>\n  <path d=\"M 30 90 Q 50 110 70 90\" fill=\"none\" stroke=\"#ffd700\" stroke-width=\"3\"/>\n  <text x=\"50\" y=\"25\" text-anchor=\"middle\" fill=\"#ffd700\" font-size=\"14\" font-weight=\"bold\">II</text>\n  <text x=\"50\" y=\"135\" text-anchor=\"middle\" fill=\"#ffd700\" font-size=\"9\" font-weight=\"bold\">PRIESTESS</text>\n</svg>";

/// Drawing of The Empress.
pub const THE_EMPRESS_SVG: &'static str = "<svg width=\"100\" height=\"150\" xmlns=\"http://www.w3.org/2000/svg\">\n  <rect width=\"100\" height=\"150\" fill=\"#1a1a2e\" stroke=\"#ffd700\" stroke-width=\"2\"/>\n  <polygon points=\"50,45 65,75 35,75\" fill=\"none\" stroke=\"#ffd700\" stroke-width=\"3\"/>\n  <polygon points=\"50,95 35,75 65,75\" fill=\"none\" stroke=\"#ffd700\" stroke-width=\"3\"/>\n  <text x=\"50\" y=\"25\" text-anchor=\"middle\" fill=\"#ffd700\" font-size=\"14\" font-weight=\"bold\">III</text>\n  <text x=\"50\" y=\"135\" text-anchor=\"middle\" fill=\"#ffd700\" font-size=\"9\" font-weight=\"bold\">EMPRESS</text>\n</svg>";

/// Drawing of The Emperor.
pub const THE_EMPEROR_SVG: &'static str = "<svg width=\"100\" height=\"150\" xmlns=\"http://www.w3.org/2000/svg\">\n  <rect width=\"100\" height=\"150\" fill=\"#1a1a2e\" stroke=\"#ffd700\" stroke-width=\"2\"/>\n  <rect x=\"35\" y=\"50\" width=\"30\" height=\"30\" fill=\"none\" stroke=\"#ffd700\" stroke-width=\"3\"/>\n  <rect x=\"42\" y=\"85\" width=\"16\" height=\"16\" fill=\"none\" stroke=\"#ffd700\" stroke-width=\"2\"/>\n  <text x=\"50\" y=\"25\" text-anchor=\"middle\" fill=\"#ffd700\" font-size=\"14\" font-weight=\"bold\">IV</text>\n  <text x=\"50\" y=\"135\" text-anchor=\"middle\" fill=\"#ffd700\" font-size=\"9\" font-weight=\"bold\">EMPEROR</text>\n</svg>";

/// Drawing of The Hierophant.
pub const THE_HIEROPHANT_SVG: &'static str = "<svg width=\"100\" height=\"150\" xmlns=\"http://www.w3.org/2000/svg\">\n  <rect width=\"100\" height=\"150\" fill=\"#1a1a2e\" stroke=\"#ffd700\" stroke-width=\"2\"/>\n  <line x1=\"30\" y1=\"50\" x2=\"70\" y2=\"50\" stroke=\"#ffd700\" stroke-width=\"3\"/>\n  <line x1=\"30\" y1=\"70\" x2=\"70\" y2=\"70\" stroke=\"#ffd700\" stroke-width=\"3\"/>\n  <line x1=\"30\" y1=\"90\" x2=\"70\" y2=\"90\" stroke=\"#ffd700\" stroke-width=\"3\"/>\n  <text x=\"50\" y=\"25\" text-anchor=\"middle\" fill=\"#ffd700\" font-size=\"14\" font-weight=\"bold\">V</text>\n  <text x=\"50\" y=\"135\" text-anchor=\"middle\" fill=\"#ffd700\" font-size=\"8\" font-weight=\"bold\">HIEROPHANT</text>\n</svg>";

/// Drawing of The Lovers.
pub const THE_LOVERS_SVG: &'static str = "<svg width=\"100\" height=\"150\" xmlns=\"http://www.w3.org/2000/svg\">\n  <rect width=\"100\" height=\"150\" fill=\"#1a1a2e\" stroke=\"#ffd700\" stroke-width=\"2\"/>\n  <path d=\"M 40 65 Q 30 50 25 65 Q 30 80 40 65\" fill=\"none\" stroke=\"#ffd700\" stroke-width=\"3\"/>\n  <path d=\"M 60 65 Q 70 50 75 65 Q 70 80 60 65\" fill=\"none\" stroke=\"#ffd700\" stroke-width=\"3\"/>\n  <text x=\"50\" y=\"25\" text-anchor=\"middle\" fill=\"#ffd700\" font-size=\"14\" font-weight=\"bold\">VI</text>\n  <text x=\"50\" y=\"135\" text-anchor=\"middle\" fill=\"#ffd700\" font-size=\"9\" font-weight=\"bold\">LOVERS</text>\n</svg>";

/// Drawing of The Chariot.
pub const THE_CHARIOT_SVG: &'static str = "<svg width=\"100\" height=\"150\" xmlns=\"http://www.w3.org/2000/svg\">\n  <rect width=\"100\" height=\"150\" fill=\"#1a1a2e\" stroke=\"#ffd700\" stroke-width=\"2\"/>\n  <rect x=\"25\" y=\"60\" width=\"50\" height=\"25\" fill=\"none\" stroke=\"#ffd700\" stroke-width=\"3\"/>\n  <circle cx=\"35\" cy=\"95\" r=\"8\" fill=\"none\" stroke=\"#ffd700\" stroke-width=\"2\"/>\n  <circle cx=\"65\" cy=\"95\" r=\"8\" fill=\"none\" stroke=\"#ffd700\" stroke-width=\"2\"/>\n  <text x=\"50\" y=\"25\" text-anchor=\"middle\" fill=\"#ffd700\" font-size=\"14\" font-weight=\"bold\">VII</text>\n  <text x=\"50\" y=\"135\" text-anchor=\"middle\" fill=\"#ffd700\" font-size=\"9\" font-weight=\"bold\">CHARIOT</text>\n</svg>";

/// Drawing of Strength.
pub const STRENGTH_SVG: &'static str = "<svg width=\"100\" height=\"150\" xmlns=\"http://www.w3.org/2000/svg\">\n  <rect width=\"100\" height=\"150\" fill=\"#1a1a2e\" stroke=\"#ffd700\" stroke-width=\"2\"/>\n  <path d=\"M 25 50 L 75 100 M 75 50 L 25 100\" stroke=\"#ffd700\" stroke-width=\"4\"/>\n  <circle cx=\"50\" cy=\"75\" r=\"15\" fill=\"none\" stroke=\"#ffd700\" stroke-width=\"3\"/>\n  <text x=\"50\" y=\"25\" text-anchor=\"middle\" fill=\"#ffd700\" font-size=\"14\" font-weight=\"bold\">VIII</text>\n  <text x=\"50\" y=\"135\" text-anchor=\"middle\" fill=\"#ffd700\" font-size=\"9\" font-weight=\"bold\">STRENGTH</text>\n</svg>";

/// Drawing of The Hermit.
pub const THE_HERMIT_SVG: &'static str = "<svg width=\"100\" height=\"150\" xmlns=\"http://www.w3.org/2000/svg\">\n  <rect width=\"100\" height=\"150\" fill=\"#1a1a2e\" stroke=\"#ffd700\" stroke-width=\"2\"/>\n  <circle cx=\"45\" cy=\"65\" r=\"4\" fill=\"#ffd700\"/>\n  <line x1=\"45\" y1=\"65\" x2=\"65\" y2=\"85\" stroke=\"#ffd700\" stroke-width=\"3\"/>\n  <circle cx=\"50\" cy=\"45\" r=\"10\" fill=\"none\" stroke=\"#ffd700\" stroke-width=\"2\"/>\n  <text x=\"50\" y=\"25\" text-anchor=\"middle\" fill=\"#ffd700\" font-size=\"14\" font-weight=\"bold\">IX</text>\n  <text x=\"50\" y=\"135\" text-anchor=\"middle\" fill=\"#ffd700\" font-size=\"9\" font-weight=\"bold\">HERMIT</text>\n</svg>";

/// Drawing of Wheel of Fortune.
pub const WHEEL_OF_FORTUNE_SVG: &'static str = "<svg width=\"100\" height=\"150\" xmlns=\"http://www.w3.org/2000/svg\">\n  <rect width=\"100\" height=\"150\" fill=\"#1a1a2e\" stroke=\"#ffd700\" stroke-width=\"2\"/>\n  <circle cx=\"50\" cy=\"75\" r=\"25\" fill=\"none\" stroke=\"#ffd700\" stroke-width=\"3\"/>\n  <line x1=\"50\" y1=\"50\" x2=\"50\" y2=\"100\" stroke=\"#ffd700\" stroke-width=\"2\"/>\n  <line x1=\"25\" y1=\"75\" x2=\"75\" y2=\"75\" stroke=\"#ffd700\" stroke-width=\"2\"/>\n  <text x=\"50\" y=\"25\" text-anchor=\"middle\" fill=\"#ffd700\" font-size=\"14\" font-weight=\"bold\">X</text>\n  <text x=\"50\" y=\"135\" text-anchor=\"middle\" fill=\"#ffd700\" font-size=\"8\" font-weight=\"bold\">FORTUNE</text>\n</svg>";

/// Drawing of Justice.
pub const JUSTICE_SVG: &'static str = "<svg width=\"100\" height=\"150\" xmlns=\"http://www.w3.org/2000/svg\">\n  <rect width=\"100\" height=\"150\" fill=\"#1a1a2e\" stroke=\"#ffd700\" stroke-width=\"2\"/>\n  <line x1=\"50\" y1=\"40\" x2=\"50\" y2=\"110\" stroke=\"#ffd700\" stroke-width=\"4\"/>\n  <rect x=\"35\" y=\"55\" width=\"30\" height=\"5\" fill=\"#ffd700\"/>\n  <circle cx=\"50\" cy=\"90\" r=\"8\" fill=\"none\" stroke=\"#ffd700\" stroke-width=\"2\"/>\n  <text x=\"50\" y=\"25\" text-anchor=\"middle\" fill=\"#ffd700\" font-size=\"14\" font-weight=\"bold\">XI</text>\n  <text x=\"50\" y=\"135\" text-anchor=\"middle\" fill=\"#ffd700\" font-size=\"9\" font-weight=\"bold\">JUSTICE</text>\n</svg>";

/// Drawing of The Hanged Man.
pub const THE_HANGED_MAN_SVG: &'static str = "<svg width=\"100\" height=\"150\" xmlns=\"http://www.w3.org/2000/svg\">\n  <rect width=\"100\" height=\"150\" fill=\"#1a1a2e\" stroke=\"#ffd700\" stroke-width=\"2\"/>\n  <line x1=\"30\" y1=\"45\" x2=\"70\" y2=\"45\" stroke=\"#ffd700\" stroke-width=\"3\"/>\n  <line x1=\"50\" y1=\"45\" x2=\"50\" y2=\"75\" stroke=\"#ffd700\" stroke-width=\"3\"/>\n  <circle cx=\"50\" cy=\"85\" r=\"8\" fill=\"none\" stroke=\"#ffd700\" stroke-width=\"2\"/>\n  <text x=\"50\" y=\"25\" text-anchor=\"middle\" fill=\"#ffd700\" font-size=\"14\" font-weight=\"bold\">XII</text>\n  <text x=\"50\" y=\"135\" text-anchor=\"middle\" fill=\"#ffd700\" font-size=\"8\" font-weight=\"bold\">HANGED MAN</text>\n</svg>";

/// Drawing of Death.
pub const DEATH_SVG: &'static str = "<svg width=\"100\" height=\"150\" xmlns=\"http://www.w3.org/2000/svg\">\n  <rect width=\"100\" height=\"150\" fill=\"#1a1a2e\" stroke=\"#ffd700\" stroke-width=\"2\"/>\n  <rect x=\"40\" y=\"50\" width=\"20\" height=\"40\" fill=\"none\" stroke=\"#ffd700\" stroke-width=\"3\"/>\n  <circle cx=\"50\" cy=\"40\" r=\"8\" fill=\"none\" stroke=\"#ffd700\" stroke-width=\"2\"/>\n  <line x1=\"35\" y1=\"100\" x2=\"65\" y2=\"100\" stroke=\"#ffd700\" stroke-width=\"3\"/>\n  <text x=\"50\" y=\"25\" text-anchor=\"middle\" fill=\"#ffd700\" font-size=\"14\" font-weight=\"bold\">XIII</text>\n  <text x=\"50\" y=\"135\" text-anchor=\"middle\" fill=\"#ffd700\" font-size=\"9\" font-weight=\"bold\">DEATH</text>\n</svg>";

/// Drawing of Temperance.
pub const TEMPERANCE_SVG: &'static str = "<svg width=\"100\" height=\"150\" xmlns=\"http://www.w3.org/2000/svg\">\n  <rect width=\"100\" height=\"150\" fill=\"#1a1a2e\" stroke=\"#ffd700\" stroke-width=\"2\"/>\n  <rect x=\"30\" y=\"50\" width=\"15\" height=\"30\" fill=\"none\" stroke=\"#ffd700\" stroke-width=\"2\"/>\n  <rect x=\"55\" y=\"60\" width=\"15\" height=\"30\" fill=\"none\" stroke=\"#ffd700\" stroke-width=\"2\"/>\n  <path d=\"M 45 65 Q 50 70 55 65\" stroke=\"#ffd700\" stroke-width=\"2\" fill=\"none\"/>\n  <text x=\"50\" y=\"25\" text-anchor=\"middle\" fill=\"#ffd700\" font-size=\"14\" font-weight=\"bold\">XIV</text>\n  <text x=\"50\" y=\"135\" text-anchor=\"middle\" fill=\"#ffd700\" font-size=\"8\" font-weight=\"bold\">TEMPERANCE</text>\n</svg>";

/// Drawing of The Devil.
pub const THE_DEVIL_SVG: &'static str = "<svg width=\"100\" height=\"150\" xmlns=\"http://www.w3.org/2000/svg\">\n  <rect width=\"100\" height=\"150\" fill=\"#1a1a2e\" stroke=\"#ffd700\" stroke-width=\"2\"/>\n  <polygon points=\"50,40 60,65 40,65\" fill=\"none\" stroke=\"#ffd700\" stroke-width=\"3\"/>\n  <polygon points=\"50,100 40,75 60,75\" fill=\"none\" stroke=\"#ffd700\" stroke-width=\"3\"/>\n  <circle cx=\"45\" cy=\"45\" r=\"3\" fill=\"#ffd700\"/>\n  <circle cx=\"55\" cy=\"45\" r=\"3\" fill=\"#ffd700\"/>\n  <text x=\"50\" y=\"25\" text-anchor=\"middle\" fill=\"#ffd700\" font-size=\"14\" font-weight=\"bold\">XV</text>\n  <text x=\"50\" y=\"135\" text-anchor=\"middle\" fill=\"#ffd700\" font-size=\"9\" font-weight=\"bold\">DEVIL</text>\n</svg>";

/// Drawing of The Tower.
pub const THE_TOWER_SVG: &'static str = "<svg width=\"100\" height=\"150\" xmlns=\"http://www.w3.org/2000/svg\">\n  <rect width=\"100\" height=\"150\" fill=\"#1a1a2e\" stroke=\"#ffd700\" stroke-width=\"2\"/>\n  <rect x=\"35\" y=\"50\" width=\"30\" height=\"50\" fill=\"none\" stroke=\"#ffd700\" stroke-width=\"3\"/>\n  <polygon points=\"30,45 50,30 70,45\" fill=\"none\" stroke=\"#ffd700\" stroke-width=\"2\"/>\n  <line x1=\"45\" y1=\"30\" x2=\"48\" y2=\"20\" stroke=\"#ffd700\" stroke-width=\"2\"/>\n  <line x1=\"52\" y1=\"30\" x2=\"55\" y2=\"20\" stroke=\"#ffd700\" stroke-width=\"2\"/>\n  <text x=\"50\" y=\"25\" text-anchor=\"middle\" fill=\"#ffd700\" font-size=\"14\" font-weight=\"bold\">XVI</text>\n  <text x=\"50\" y=\"135\" text-anchor=\"middle\" fill=\"#ffd700\" font-size=\"9\" font-weight=\"bold\">TOWER</text>\n</svg>";

/// Drawing of The Star.
pub const THE_STAR_SVG: &'static str = "<svg width=\"100\" height=\"150\" xmlns=\"http://www.w3.org/2000/svg\">\n  <rect width=\"100\" height=\"150\" fill=\"#1a1a2e\" stroke=\"#ffd700\" stroke-width=\"2\"/>\n  <polygon points=\"50,35 55,50 70,50 58,60 63,75 50,65 37,75 42,60 30,50 45,50\" fill=\"none\" stroke=\"#ffd700\" stroke-width=\"2\"/>\n  <circle cx=\"35\" cy=\"45\" r=\"2\" fill=\"#ffd700\"/>\n  <circle cx=\"65\" cy=\"45\" r=\"2\" fill=\"#ffd700\"/>\n  <circle cx=\"40\" cy=\"90\" r=\"2\" fill=\"#ffd700\"/>\n  <circle cx=\"60\" cy=\"90\" r=\"2\" fill=\"#ffd700\"/>\n  <text x=\"50\" y=\"25\" text-anchor=\"middle\" fill=\"#ffd700\" font-size=\"14\" font-weight=\"bold\">XVII</text>\n  <text x=\"50\" y=\"135\" text-anchor=\"middle\" fill=\"#ffd700\" font-size=\"9\" font-weight=\"bold\">STAR</text>\n</svg>";

/// Drawing of The Moon.
pub const THE_MOON_SVG: &'static str = "<svg width=\"100\" height=\"150\" xmlns=\"http://www.w3.org/2000/svg\">\n  <rect width=\"100\" height=\"150\" fill=\"#1a1a2e\" stroke=\"#ffd700\" stroke-width=\"2\"/>\n  <path d=\"M 50 40 Q 35 55 50 70 Q 65 55 50 40\" fill=\"none\" stroke=\"#ffd700\" stroke-width=\"3\"/>\n  <circle cx=\"42\" cy=\"55\" r=\"3\" fill=\"#ffd700\"/>\n  <circle cx=\"58\" cy=\"55\" r=\"3\" fill=\"#ffd700\"/>\n  <path d=\"M 30 90 Q 50 100 70 90\" stroke=\"#ffd700\" stroke-width=\"2\" fill=\"none\"/>\n  <text x=\"50\" y=\"25\" text-anchor=\"middle\" fill=\"#ffd700\" font-size=\"14\" font-weight=\"bold\">XVIII</text>\n  <text x=\"50\" y=\"135\" text-anchor=\"middle\" fill=\"#ffd700\" font-size=\"9\" font-weight=\"bold\">MOON</text>\n</svg>";

/// Drawing of The Sun.
pub const THE_SUN_SVG: &'static str = "<svg width=\"100\" height=\"150\" xmlns=\"http://www.w3.org/2000/svg\">\n  <rect width=\"100\" height=\"150\" fill=\"#1a1a2e\" stroke=\"#ffd700\" stroke-width=\"2\"/>\n  <circle cx=\"50\" cy=\"65\" r=\"20\" fill=\"none\" stroke=\"#ffd700\" stroke-width=\"3\"/>\n  <line x1=\"50\" y1=\"30\" x2=\"50\" y2=\"35\" stroke=\"#ffd700\" stroke-width=\"2\"/>\n  <line x1=\"50\" y1=\"95\" x2=\"50\" y2=\"100\" stroke=\"#ffd700\" stroke-width=\"2\"/>\n  <line x1=\"25\" y1=\"65\" x2=\"30\" y2=\"65\" stroke=\"#ffd700\" stroke-width=\"2\"/>\n  <line x1=\"70\" y1=\"65\" x2=\"75\" y2=\"65\" stroke=\"#ffd700\" stroke-width=\"2\"/>\n  <line x1=\"35\" y1=\"40\" x2=\"38\" y2=\"43\" stroke=\"#ffd700\" stroke-width=\"2\"/>\n  <line x1=\"65\" y1=\"90\" x2=\"62\" y2=\"87\" stroke=\"#ffd700\" stroke-width=\"2\"/>\n  <line x1=\"65\" y1=\"40\" x2=\"62\" y2=\"43\" stroke=\"#ffd700\" stroke-width=\"2\"/>\n  <line x1=\"35\" y1=\"90\" x2=\"38\" y2=\"87\" stroke=\"#ffd700\" stroke-width=\"2\"/>\n  <text x=\"50\" y=\"25\" text-anchor=\"middle\" fill=\"#ffd700\" font-size=\"14\" font-weight=\"bold\">XIX</text>\n  <text x=\"50\" y=\"135\" text-anchor=\"middle\" fill=\"#ffd700\" font-size=\"9\" font-weight=\"bold\">SUN</text>\n</svg>";

/// Drawing of Judgement.
pub const JUDGEMENT_SVG: &'static str = "<svg width=\"100\" height=\"150\" xmlns=\"http://www.w3.org/2000/svg\">\n  <rect width=\"100\" height=\"150\" fill=\"#1a1a2e\" stroke=\"#ffd700\" stroke-width=\"2\"/>\n  <polygon points=\"40,45 50,30 60,45\" fill=\"none\" stroke=\"#ffd700\" stroke-width=\"2\"/>\n  <rect x=\"45\" y=\"45\" width=\"10\" height=\"25\" fill=\"none\" stroke=\"#ffd700\" stroke-width=\"2\"/>\n  <circle cx=\"35\" cy=\"85\" r=\"5\" fill=\"none\" stroke=\"#ffd700\" stroke-width=\"2\"/>\n  <circle cx=\"50\" cy=\"85\" r=\"5\" fill=\"none\" stroke=\"#ffd700\" stroke-width=\"2\"/>\n  <circle cx=\"65\" cy=\"85\" r=\"5\" fill=\"none\" stroke=\"#ffd700\" stroke-width=\"2\"/>\n  <text x=\"50\" y=\"25\" text-anchor=\"middle\" fill=\"#ffd700\" font-size=\"14\" font-weight=\"bold\">XX</text>\n  <text x=\"50\" y=\"135\" text-anchor=\"middle\" fill=\"#ffd700\" font-size=\"8\" font-weight=\"bold\">JUDGEMENT</text>\n</svg>";

/// Drawing of The World.
pub const THE_WORLD_SVG: &'static str = "<svg width=\"100\" height=\"150\" xmlns=\"http://www.w3.org/2000/svg\">\n  <rect width=\"100\" height=\"150\" fill=\"#1a1a2e\" stroke=\"#ffd700\" stroke-width=\"2\"/>\n  <circle cx=\"50\" cy=\"75\" r=\"25\" fill=\"none\" stroke=\"#ffd700\" stroke-width=\"3\"/>\n  <circle cx=\"50\" cy=\"75\" r=\"15\" fill=\"none\" stroke=\"#ffd700\" stroke-width=\"2\"/>\n  <circle cx=\"50\" cy=\"75\" r=\"5\" fill=\"#ffd700\"/>\n  <rect x=\"25\" y=\"50\" width=\"5\" height=\"5\" fill=\"#ffd700\"/>\n  <rect x=\"70\" y=\"50\" width=\"5\" height=\"5\" fill=\"#ffd700\"/>\n  <rect x=\"25\" y=\"95\" width=\"5\" height=\"5\" fill=\"#ffd700\"/>\n  <rect x=\"70\" y=\"95\" width=\"5\" height=\"5\" fill=\"#ffd700\"/>\n  <text x=\"50\" y=\"25\" text-anchor=\"middle\" fill=\"#ffd700\" font-size=\"14\" font-weight=\"bold\">XXI</text>\n  <text x=\"50\" y=\"135\" text-anchor=\"middle\" fill=\"#ffd700\" font-size=\"9\" font-weight=\"bold\">WORLD</text>\n</svg>";

/// Drawing of the major card `card`.
pub open spec fn major_arcana_svg(card: int) -> Seq<char>
    recommends
        0 <= card < 22,
{
    if card == 0 {
        THE_FOOL_SVG@
    } else if card == 1 {
        THE_MAGICIAN_SVG@
    } else if card == 2 {
        THE_HIGH_PRIESTESS_SVG@
    } else if card == 3 {
        THE_EMPRESS_SVG@
    } else if card == 4 {
        THE_EMPEROR_SVG@
    } else if card == 5 {
        THE_HIEROPHANT_SVG@
    } else if card == 6 {
        THE_LOVERS_SVG@
    } else if card == 7 {
        THE_CHARIOT_SVG@
    } else if card == 8 {
        STRENGTH_SVG@
    } else if card == 9 {
        THE_HERMIT_SVG@
    } else if card == 10 {
        WHEEL_OF_FORTUNE_SVG@
    } else if card == 11 {
        JUSTICE_SVG@
    } else if card == 12 {
        THE_HANGED_MAN_SVG@
    } else if card == 13 {
        DEATH_SVG@
    } else if card == 14 {
        TEMPERANCE_SVG@
    } else if card == 15 {
        THE_DEVIL_SVG@
    } else if card == 16 {
        THE_TOWER_SVG@
    } else if card == 17 {
        THE_STAR_SVG@
    } else if card == 18 {
        THE_MOON_SVG@
    } else if card == 19 {
        THE_SUN_SVG@
    } else if card == 20 {
        JUDGEMENT_SVG@
    } else {
        THE_WORLD_SVG@
    }
}

/// The drawings of the 22 major cards, in the order of their ids.
pub fn get_major_arcana_svgs() -> (svgs: Vec<String>)
    ensures
        svgs@.len() == 22,
        forall|card: int| 0 <= card < 22 ==> (#[trigger] svgs@[card])@ == major_arcana_svg(card),
{
    let mut svgs: Vec<String> = Vec::new();
    svgs.push(String::from_str(THE_FOOL_SVG));
    svgs.push(String::from_str(THE_MAGICIAN_SVG));
    svgs.push(String::from_str(THE_HIGH_PRIESTESS_SVG));
    svgs.push(String::from_str(THE_EMPRESS_SVG));
    svgs.push(String::from_str(THE_EMPEROR_SVG));
    svgs.push(String::from_str(THE_HIEROPHANT_SVG));
    svgs.push(String::from_str(THE_LOVERS_SVG));
    svgs.push(String::from_str(THE_CHARIOT_SVG));
    svgs.push(String::from_str(STRENGTH_SVG));
    svgs.push(String::from_str(THE_HERMIT_SVG));
    svgs.push(String::from_str(WHEEL_OF_FORTUNE_SVG));
    svgs.push(String::from_str(JUSTICE_SVG));
    svgs.push(String::from_str(THE_HANGED_MAN_SVG));
    svgs.push(String::from_str(DEATH_SVG));
    svgs.push(String::from_str(TEMPERANCE_SVG));
    svgs.push(String::from_str(THE_DEVIL_SVG));
    svgs.push(String::from_str(THE_TOWER_SVG));
    svgs.push(String::from_str(THE_STAR_SVG));
    svgs.push(String::from_str(THE_MOON_SVG));
    svgs.push(String::from_str(THE_SUN_SVG));
    svgs.push(String::from_str(JUDGEMENT_SVG));
    svgs.push(String::from_str(THE_WORLD_SVG));
    svgs
}

/// The placeholder's text up to the color of the frame.
pub const PLACEHOLDER_OPENING: &'static str = "<svg width=\"100\" height=\"150\" xmlns=\"http://www.w3.org/2000/svg\">\n  <rect width=\"100\" height=\"150\" fill=\"#1a1a2e\" stroke=\"";

/// The placeholder's text from the frame to the color of the symbol.
pub const PLACEHOLDER_BEFORE_SYMBOL_COLOR: &'static str = "\" stroke-width=\"2\"/>\n  <text x=\"50\" y=\"30\" text-anchor=\"middle\" fill=\"";

/// The placeholder's text from the color of the symbol to the symbol.
pub const PLACEHOLDER_BEFORE_SYMBOL: &'static str = "\" font-size=\"20\" font-weight=\"bold\">";

/// The placeholder's text from the symbol to the color of the rank.
pub const PLACEHOLDER_BEFORE_RANK_COLOR: &'static str = "</text>\n  <text x=\"50\" y=\"60\" text-anchor=\"middle\" fill=\"";

/// The placeholder's text from the color of the rank to the rank.
pub const PLACEHOLDER_BEFORE_RANK: &'static str = "\" font-size=\"18\" font-weight=\"bold\">";

/// The placeholder's text from the rank to the color of the suit.
pub const PLACEHOLDER_BEFORE_SUIT_COLOR: &'static str = "</text>\n  <text x=\"50\" y=\"135\" text-anchor=\"middle\" fill=\"";

/// The placeholder's text from the color of the suit to the suit.
pub const PLACEHOLDER_BEFORE_SUIT: &'static str = "\" font-size=\"10\" font-weight=\"bold\">";

/// The placeholder's text after the suit.
pub const PLACEHOLDER_CLOSING: &'static str = "</text>\n</svg>";

/// Name of a suit as a placeholder shows it.
pub open spec fn suit_caption(suit: int) -> Seq<char>
    recommends
        0 <= suit < 4,
{
    if suit == 0 {
        "WANDS"@
    } else if suit == 1 {
        "CUPS"@
    } else if suit == 2 {
        "SWORDS"@
    } else {
        "PENTACLES"@
    }
}

/// Color of a suit.
pub open spec fn suit_color(suit: int) -> Seq<char>
    recommends
        0 <= suit < 4,
{
    if suit == 0 {
        "#e74c3c"@
    } else if suit == 1 {
        "#3498db"@
    } else if suit == 2 {
        "#9b59b6"@
    } else {
        "#f1c40f"@
    }
}

/// Symbol of a suit.
pub open spec fn suit_symbol(suit: int) -> Seq<char>
    recommends
        0 <= suit < 4,
{
    if suit == 0 {
        "⚡"@
    } else if suit == 1 {
        "♡"@
    } else if suit == 2 {
        "⚔"@
    } else {
        "◈"@
    }
}

/// Label of a rank on a placeholder: a letter for the ranks 1, 11, 12 and
/// 13, the numeral for the others.
pub open spec fn rank_label(rank: int) -> Seq<char>
    recommends
        1 <= rank <= 14,
{
    if rank == 1 {
        "A"@
    } else if rank == 11 {
        "J"@
    } else if rank == 12 {
        "Q"@
    } else if rank == 13 {
        "K"@
    } else {
        decimal_text(rank as nat)
    }
}

/// Placeholder of the minor card of rank `rank` in suit `suit`.
pub open spec fn minor_arcana_placeholder(suit: int, rank: int) -> Seq<char>
    recommends
        0 <= suit < 4,
        1 <= rank <= 14,
{
    PLACEHOLDER_OPENING@ + suit_color(suit) + PLACEHOLDER_BEFORE_SYMBOL_COLOR@ + suit_color(suit)
        + PLACEHOLDER_BEFORE_SYMBOL@ + suit_symbol(suit) + PLACEHOLDER_BEFORE_RANK_COLOR@
        + suit_color(suit) + PLACEHOLDER_BEFORE_RANK@ + rank_label(rank)
        + PLACEHOLDER_BEFORE_SUIT_COLOR@ + suit_color(suit) + PLACEHOLDER_BEFORE_SUIT@
        + suit_caption(suit) + PLACEHOLDER_CLOSING@
}

/// Image of card `card` of the deck.
pub open spec fn tarot_card_svg(card: int) -> Seq<char>
    recommends
        0 <= card < 78,
{
    if card < 22 {
        major_arcana_svg(card)
    } else {
        minor_arcana_placeholder((card - 22) / 14, (card - 22) % 14 + 1)
    }
}

/// Makes the placeholder of one minor card.
fn placeholder(suit: usize, rank: u8) -> (svg: String)
    requires
        suit < 4,
        1 <= rank <= 14,
    ensures
        svg@ == minor_arcana_placeholder(suit as int, rank as int),
{
    let caption = match suit {
        0 => "WANDS",
        1 => "CUPS",
        2 => "SWORDS",
        _ => "PENTACLES",
    };
    let color = match suit {
        0 => "#e74c3c",
        1 => "#3498db",
        2 => "#9b59b6",
        _ => "#f1c40f",
    };
    let symbol = match suit {
        0 => "⚡",
        1 => "♡",
        2 => "⚔",
        _ => "◈",
    };
    let mut svg = String::from_str(PLACEHOLDER_OPENING);
    svg.append(color);
    svg.append(PLACEHOLDER_BEFORE_SYMBOL_COLOR);
    svg.append(color);
    svg.append(PLACEHOLDER_BEFORE_SYMBOL);
    svg.append(symbol);
    svg.append(PLACEHOLDER_BEFORE_RANK_COLOR);
    svg.append(color);
    svg.append(PLACEHOLDER_BEFORE_RANK);
    match rank {
        1 => svg.append("A"),
        11 => svg.append("J"),
        12 => svg.append("Q"),
        13 => svg.append("K"),
        _ => push_decimal(&mut svg, rank),
    }
    svg.append(PLACEHOLDER_BEFORE_SUIT_COLOR);
    svg.append(color);
    svg.append(PLACEHOLDER_BEFORE_SUIT);
    svg.append(caption);
    svg.append(PLACEHOLDER_CLOSING);
    assert(svg@ =~= minor_arcana_placeholder(suit as int, rank as int));
    svg
}

/// The placeholders of the 56 minor cards, suit by suit and rank by rank.
pub fn get_minor_arcana_placeholders() -> (cards: Vec<String>)
    ensures
        cards@.len() == 56,
        forall|k: int|
            0 <= k < 56 ==> (#[trigger] cards@[k])@ == minor_arcana_placeholder(k / 14, k % 14 + 1),
{
    let mut cards: Vec<String> = Vec::new();
    let mut suit: usize = 0;
    while suit < 4
        invariant
            suit <= 4,
            cards@.len() == suit * 14,
            forall|k: int|
                0 <= k < suit * 14 ==> (#[trigger] cards@[k])@ == minor_arcana_placeholder(
                    k / 14,
                    k % 14 + 1,
                ),
        decreases 4 - suit,
    {
        let mut rank: u8 = 1;
        while rank <= 14
            invariant
                suit < 4,
                1 <= rank <= 15,
                cards@.len() == suit * 14 + rank - 1,
                forall|k: int|
                    0 <= k < suit * 14 + rank - 1 ==> (#[trigger] cards@[k])@
                        == minor_arcana_placeholder(k / 14, k % 14 + 1),
            decreases 15 - rank,
        {
            cards.push(placeholder(suit, rank));
            rank += 1;
        }
        suit += 1;
    }
    cards
}

/// The images of all 78 cards, in the order of their ids.
pub fn get_all_tarot_cards() -> (cards: Vec<String>)
    ensures
        cards@.len() == 78,
        forall|card: int| 0 <= card < 78 ==> (#[trigger] cards@[card])@ == tarot_card_svg(card),
{
    let mut all_cards = get_major_arcana_svgs();
    let mut minor = get_minor_arcana_placeholders();
    all_cards.append(&mut minor);
    all_cards
}

} // verus!
