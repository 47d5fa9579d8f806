//! The built-in English rule table.

use vstd::prelude::*;
use crate::seed::RuleTable;

verus! {

fn pair(a: &str, b: &str) -> (String, String) {
    (a.to_owned(), b.to_owned())
}

/// Irregular (singular, plural) pairs.
fn default_irregulars() -> Vec<(String, String)> {
    vec![
        pair("i", "we"),
        pair("me", "us"),
        pair("he", "they"),
        pair("she", "they"),
        pair("them", "them"),
        pair("myself", "ourselves"),
        pair("yourself", "yourselves"),
        pair("itself", "themselves"),
        pair("herself", "themselves"),
        pair("himself", "themselves"),
        pair("themself", "themselves"),
        pair("is", "are"),
        pair("was", "were"),
        pair("has", "have"),
        pair("this", "these"),
        pair("that", "those"),
        pair("echo", "echoes"),
        pair("dingo", "dingoes"),
        pair("volcano", "volcanoes"),
        pair("tornado", "tornadoes"),
        pair("torpedo", "torpedoes"),
        pair("genus", "genera"),
        pair("viscus", "viscera"),
        pair("stigma", "stigmata"),
        pair("stoma", "stomata"),
        pair("dogma", "dogmata"),
        pair("lemma", "lemmata"),
        pair("schema", "schemata"),
        pair("anathema", "anathemata"),
        pair("ox", "oxen"),
        pair("axe", "axes"),
        pair("die", "dice"),
        pair("yes", "yeses"),
        pair("foot", "feet"),
        pair("eave", "eaves"),
        pair("goose", "geese"),
        pair("tooth", "teeth"),
        pair("quiz", "quizzes"),
        pair("human", "humans"),
        pair("proof", "proofs"),
        pair("carve", "carves"),
        pair("valve", "valves"),
        pair("looey", "looies"),
        pair("thief", "thieves"),
        pair("groove", "grooves"),
        pair("pickaxe", "pickaxes"),
        pair("passerby", "passersby"),
        pair("canvas", "canvases"),
    ]
}

/// Rules toward the plural, from the most general to the most specific.
fn default_plural_rules() -> Vec<(String, String)> {
    vec![
        pair("(?i)^(.*?)s?$", "$1s"),
        pair("(?i)^.*[^\\x00-\\x7F]$", "$0"),
        pair("(?i)^(.*[^aeiou]ese)$", "$1"),
        pair("(?i)^(.*(?:ax|test))is$", "$1es"),
        pair("(?i)^(.*(?:alias|[^aou]us|t[lm]as|gas|ris))$", "$1es"),
        pair("(?i)^(.*e[mn]u)s?$", "$1s"),
        pair("(?i)^(.*(?:[^l]ias|[aeiou]las|[ejzr]as|[iu]am))$", "$1"),
        pair("(?i)^(.*(?:alumn|syllab|vir|radi|nucle|fung|cact|stimul|termin|bacill|foc|uter|loc|strat))(?:us|i)$", "$1i"),
        pair("(?i)^(.*(?:alumn|alg|vertebr))(?:a|ae)$", "$1ae"),
        pair("(?i)^(.*(?:cod|mur|sil|vert|ind))ex$", "$1ices"),
        pair("(?i)^(.*(?:matr|append))ix$", "$1ices"),
        pair("(?i)^(.*(?:seraph|cherub))(?:im)?$", "$1im"),
        pair("(?i)^(.*(?:her|at|gr))o$", "$1oes"),
        pair("(?i)^(.*(?:agend|addend|millenni|dat|extrem|bacteri|desiderat|strat|candelabr|errat|ov|symposi|curricul|automat|quor))(?:a|um)$", "$1a"),
        pair("(?i)^(.*(?:apheli|hyperbat|periheli|asyndet|noumen|phenomen|criteri|organ|prolegomen|hedr|automat))(?:a|on)$", "$1a"),
        pair("(?i)^(.*)sis$", "$1ses"),
        pair("(?i)^(.*(?:kni|wi|li))fe$", "$1ves"),
        pair("(?i)^(.*(?:ar|l|ea|eo|oa|hoo))f$", "$1ves"),
        pair("(?i)^(.*(?:[^aeiouy]|qu))y$", "$1ies"),
        pair("(?i)^(.*[^ch][ieo][ln])ey$", "$1ies"),
        pair("(?i)^(.*(?:x|ch|ss|sh|zz))$", "$1es"),
        pair("(?i)^(.*(?:matr|cod|mur|sil|vert|ind|append))(?:ix|ex)$", "$1ices"),
        pair("(?i)^((?:tit)?m|l)(?:ice|ouse)$", "$1ice"),
        pair("(?i)^(.*pe)(?:rson|ople)$", "$1ople"),
        pair("(?i)^(.*child)(?:ren)?$", "$1ren"),
        pair("(?i)^.*eaux$", "$0"),
        pair("(?i)^(.*m)[ae]n$", "$1en"),
        pair("(?i)^thou$", "you"),
    ]
}

/// Rules toward the singular, from the most general to the most specific.
fn default_singular_rules() -> Vec<(String, String)> {
    vec![
        pair("(?i)^(.*)s$", "$1"),
        pair("(?i)^(.*ss)$", "$1"),
        pair("(?i)^(.*(?:wi|kni|(?:after|half|high|low|mid|non|night|[^\\w]|^)li))ves$", "$1fe"),
        pair("(?i)^(.*(?:ar|(?:wo|[ae])l|[eo][ao]))ves$", "$1f"),
        pair("(?i)^(.*)ies$", "$1y"),
        pair("(?i)^(.*(?:dg|ss|ois|lk|ok|wn|mb|th|ch|ec|oal|is|ck|ix|sser|ts|wb))ies$", "$1ie"),
        pair("(?i)^(l|(?:neck|cross|hog|aun)?t|coll|faer|food|gen|goon|group|hipp|junk|vegg|(?:pork)?p|charl|calor|cut)ies$", "$1ie"),
        pair("(?i)^(mon|smil)ies$", "$1ey"),
        pair("(?i)^((?:tit)?m|l)ice$", "$1ouse"),
        pair("(?i)^(.*(?:seraph|cherub))im$", "$1"),
        pair("(?i)^(.*(?:x|ch|ss|sh|zz|tto|go|cho|alias|[^aou]us|t[lm]as|gas|(?:her|at|gr)o|[aeiou]ris))(?:es)?$", "$1"),
        pair("(?i)^(.*(?:analy|diagno|parenthe|progno|synop|the|empha|cri|ne))(?:sis|ses)$", "$1sis"),
        pair("(?i)^(.*(?:movie|twelve|abuse|e[mn]u))s$", "$1"),
        pair("(?i)^(.*test)(?:is|es)$", "$1is"),
        pair("(?i)^(.*(?:alumn|syllab|vir|radi|nucle|fung|cact|stimul|termin|bacill|foc|uter|loc|strat))(?:us|i)$", "$1us"),
        pair("(?i)^(.*(?:agend|addend|millenni|dat|extrem|bacteri|desiderat|strat|candelabr|errat|ov|symposi|curricul|quor))a$", "$1um"),
        pair("(?i)^(.*(?:apheli|hyperbat|periheli|asyndet|noumen|phenomen|criteri|organ|prolegomen|hedr|automat))a$", "$1on"),
        pair("(?i)^(.*(?:alumn|alg|vertebr))ae$", "$1a"),
        pair("(?i)^(.*(?:cod|mur|sil|vert|ind))ices$", "$1ex"),
        pair("(?i)^(.*(?:matr|append))ices$", "$1ix"),
        pair("(?i)^(.*pe)(?:rson|ople)$", "$1rson"),
        pair("(?i)^(.*child)ren$", "$1"),
        pair("(?i)^(.*eau)x?$", "$1"),
        pair("(?i)^(.*m)en$", "$1an"),
    ]
}

/// Words without a distinct plural.
fn default_uncountable_words() -> Vec<String> {
    vec![
        "adulthood".to_owned(),
        "advice".to_owned(),
        "agenda".to_owned(),
        "aid".to_owned(),
        "aircraft".to_owned(),
        "alcohol".to_owned(),
        "ammo".to_owned(),
        "analytics".to_owned(),
        "anime".to_owned(),
        "athletics".to_owned(),
        "audio".to_owned(),
        "bison".to_owned(),
        "blood".to_owned(),
        "bream".to_owned(),
        "buffalo".to_owned(),
        "butter".to_owned(),
        "carp".to_owned(),
        "cash".to_owned(),
        "chassis".to_owned(),
        "chess".to_owned(),
        "clothing".to_owned(),
        "cod".to_owned(),
        "commerce".to_owned(),
        "cooperation".to_owned(),
        "corps".to_owned(),
        "debris".to_owned(),
        "diabetes".to_owned(),
        "digestion".to_owned(),
        "elk".to_owned(),
        "energy".to_owned(),
        "equipment".to_owned(),
        "excretion".to_owned(),
        "expertise".to_owned(),
        "firmware".to_owned(),
        "flounder".to_owned(),
        "fun".to_owned(),
        "gallows".to_owned(),
        "garbage".to_owned(),
        "graffiti".to_owned(),
        "hardware".to_owned(),
        "headquarters".to_owned(),
        "health".to_owned(),
        "herpes".to_owned(),
        "highjinks".to_owned(),
        "homework".to_owned(),
        "housework".to_owned(),
        "information".to_owned(),
        "jeans".to_owned(),
        "justice".to_owned(),
        "kudos".to_owned(),
        "labour".to_owned(),
        "literature".to_owned(),
        "machinery".to_owned(),
        "mackerel".to_owned(),
        "mail".to_owned(),
        "media".to_owned(),
        "mews".to_owned(),
        "moose".to_owned(),
        "music".to_owned(),
        "mud".to_owned(),
        "manga".to_owned(),
        "news".to_owned(),
        "only".to_owned(),
        "personnel".to_owned(),
        "pike".to_owned(),
        "plankton".to_owned(),
        "pliers".to_owned(),
        "police".to_owned(),
        "pollution".to_owned(),
        "premises".to_owned(),
        "rain".to_owned(),
        "research".to_owned(),
        "rice".to_owned(),
        "salmon".to_owned(),
        "scissors".to_owned(),
        "series".to_owned(),
        "sewage".to_owned(),
        "shambles".to_owned(),
        "shrimp".to_owned(),
        "software".to_owned(),
        "staff".to_owned(),
        "swine".to_owned(),
        "tennis".to_owned(),
        "traffic".to_owned(),
        "transportation".to_owned(),
        "trout".to_owned(),
        "tuna".to_owned(),
        "wealth".to_owned(),
        "welfare".to_owned(),
        "whiting".to_owned(),
        "wildebeest".to_owned(),
        "wildlife".to_owned(),
        "you".to_owned(),
    ]
}

/// Patterns for families of words without a distinct plural.
fn default_uncountable_patterns() -> Vec<String> {
    vec![
        "(?i)^.*pok[e\\x{e9}]mon$".to_owned(),
        "(?i)^.*[^aeiou]ese$".to_owned(),
        "(?i)^.*deer$".to_owned(),
        "(?i)^.*fish$".to_owned(),
        "(?i)^.*measles$".to_owned(),
        "(?i)^.*o[iu]s$".to_owned(),
        "(?i)^.*pox$".to_owned(),
        "(?i)^.*sheep$".to_owned(),
    ]
}

/// The built-in English table: irregular pairs, rules in both directions,
/// and uncountable words and patterns.
pub fn default_table() -> RuleTable {
    RuleTable {
        irregular: default_irregulars(),
        plural: default_plural_rules(),
        singular: default_singular_rules(),
        uncountable_words: default_uncountable_words(),
        uncountable_patterns: default_uncountable_patterns(),
    }
}

} // verus!
