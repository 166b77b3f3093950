//! The hand-authored alias table: for each character, the patterns that recognise the
//! shorthand, transliterated and colloquial names of its moves, each bound to a canonical name.
use vstd::prelude::*;

use crate::CharacterId;
use crate::first_where;
use crate::lemma_first_where_is;
use crate::lemma_first_where_none;
use crate::CHARACTER_COUNT;
use crate::PatternError;
use crate::pattern::compile_regex;
use crate::pattern::fallback_regex;
use crate::pattern::fallback_source;
use crate::pattern::regex_compiles;
use crate::pattern::reads_as_written;
use crate::pattern::regex_accepts;
use crate::pattern::regex_matches;
use crate::pattern::regex_source;
use crate::text::ascii_eq_ignore_case;
use crate::text::eq_ignore_case;

verus! {

/// The flag that makes a pattern match without regard to case.
pub open spec fn case_insensitive_flag() -> Seq<char> {
    seq!['(', '?', 'i', ')']
}

/// The alias bindings of each character as written, each pattern without its
/// case-insensitive flag, in priority order.
pub open spec fn alias_bodies(id: CharacterId) -> Seq<(Seq<char>, Seq<char>)> {
    match id {
        CharacterId::TESTAMENT => seq![
            (r"(^(j.?)?(236HS?|hs?\s*(grave)?\s*reaper)$)"@, "236H"@),
            (r"(236\{hs?\}|((med)\s*(j.?)?(236HS?|hs?\s*(grave)?\s*reaper)))"@, "236{H}"@),
            (r"(236\[hs?\]|((charge|heavy|hard)\s*(j.?)?(236HS?|hs?\s*(grave)?\s*reaper)))"@, "236[H]"@),
            (r"(^(j.?)?(236S|s\s*(grave)?\s*reaper)$)"@, "236H"@),
            (r"(236\{s\}|((med)\s*(j.?)?(236S|s\s*(grave)?\s*reaper)))"@, "236{H}"@),
            (r"(236\[s\]|((charge|heavy|hard)\s*(j.?)?(236S|s\s*(grave)?\s*reaper)))"@, "236[H]"@),
            (r"((crow|unholy|diver))"@, "Unholy Diver"@),
            (r"((tele))"@, "Possession"@),
            (r"((214S|s\s*arbiter))"@, "214S"@),
            (r"((214H|hs?\s*arbiter))"@, "214H"@),
            (r"((236P236P|nostrovia|succub))"@, "Nostrovia"@),
            (r"((236P236K|calamity\s*one|reversal))"@, "Calamity One"@),
        ],
        CharacterId::JACKO => seq![
            (r"(2D)"@, "Sweep"@),
            (r"((236K(&|\*)))"@, "Launched Servant"@),
            (r"((236K|shoot|kick))"@, "236K"@),
            (r"((236P|summon|pull))"@, "236P"@),
            (r"((236\[P\]|((pull|summon)\s*hold)))"@, "236[P]"@),
            (r"((pick|2P))"@, "2P"@),
            (r"((throw|6(P|K|S|HS?|D)))"@, "Throw Servant"@),
            (r"((drop|release))"@, "Release Servant"@),
            (r"((unsummon|recover|recall|214P))"@, "Recover Servant"@),
            (r"((attack|214K))"@, "Attack Command"@),
            (r"((defend|block|214S))"@, "Defend Command"@),
            (r"((countdown|bomb|214HS?))"@, "Countdown"@),
            (r"((632146P|F.?E.?D|forever\s*elysion\s*driver))"@, "Forever Elysion Driver"@),
            (r"((s\s*cheer|236236S))"@, "Cheer Servant On S"@),
            (r"((hs?\s*cheer|236236HS?))"@, "Cheer Servant On H"@),
        ],
        CharacterId::NAGORIYUKI => seq![
            (r"(^(f.?S(\s*(level|lv|lvl)?\s*1)?)\s?$)"@, "f.S Level 1"@),
            (r"((f.?S\s*(level|lv|lvl)?\s*2))"@, "f.S Level 2"@),
            (r"((f.?S\s*(level|lv|lvl)?\s*3))"@, "f.S Level 3"@),
            (r"((f.?S\s*(level|lv|lvl)?\s*BR))"@, "f.S Level BR"@),
            (r"(^(f.?SS(\s*(level|lv|lvl)?\s*1)?)\s?$)"@, "f.SS Level 1"@),
            (r"((f.?SS\s*(level|lv|lvl)?\s*2))"@, "f.SS Level 2"@),
            (r"((f.?SS\s*(level|lv|lvl)?\s*3))"@, "f.SS Level 3"@),
            (r"((f.?SS\s*(level|lv|lvl)?\s*BR))"@, "f.SS Level BR"@),
            (r"(^(f.?SSS(\s*(level|lv|lvl)?\s*1)?)\s?$)"@, "f.SSS Level 1"@),
            (r"((f.?SSS\s*(level|lv|lvl)?\s*2))"@, "f.SSS Level 2"@),
            (r"((f.?SSS\s*(level|lv|lvl)?\s*3))"@, "f.SSS Level 3"@),
            (r"((f.?SSS\s*(level|lv|lvl)?\s*BR))"@, "f.SSS Level BR"@),
            (r"(^(5?H(\s*(level|lv|lvl)?\s*1)?)\s?$)"@, "5H Level 1"@),
            (r"((5?H\s*(level|lv|lvl)?\s*2))"@, "5H Level 2"@),
            (r"((5?H\s*(level|lv|lvl)?\s*3))"@, "5H Level 3"@),
            (r"((5?H\s*(level|lv|lvl)?\s*BR))"@, "5H Level BR"@),
            (r"(^(2S(\s*(level|lv|lvl)?\s*1)?)\s?$)"@, "2S Level 1"@),
            (r"((2S\s*(level|lv|lvl)?\s*2))"@, "2S Level 2"@),
            (r"((2S\s*(level|lv|lvl)?\s*3))"@, "2S Level 3"@),
            (r"((2S\s*(level|lv|lvl)?\s*BR))"@, "2S Level BR"@),
            (r"(^(2H(\s*(level|lv|lvl)?\s*1)?)\s?$)"@, "2H Level 1"@),
            (r"((2H\s*(level|lv|lvl)?\s*2))"@, "2H Level 2"@),
            (r"((2H\s*(level|lv|lvl)?\s*3))"@, "2H Level 3"@),
            (r"((2H\s*(level|lv|lvl)?\s*BR))"@, "2H Level BR"@),
            (r"(^(6H(\s*(level|lv|lvl)?\s*1)?)\s?$)"@, "6H Level 1"@),
            (r"((6H\s*(level|lv|lvl)?\s*2))"@, "6H Level 2"@),
            (r"((6H\s*(level|lv|lvl)?\s*3))"@, "6H Level 3"@),
            (r"((6H\s*(level|lv|lvl)?\s*BR))"@, "6H Level BR"@),
            (r"(^(j.?S(\s*(level|lv|lvl)?\s*1)?)\s?$)"@, "j.S Level 1"@),
            (r"((j.?S\s*(level|lv|lvl)?\s*2))"@, "j.S Level 2"@),
            (r"((j.?S\s*(level|lv|lvl)?\s*3))"@, "j.S Level 3"@),
            (r"((j.?S\s*(level|lv|lvl)?\s*BR))"@, "j.S Level BR"@),
            (r"(^(j.?H(\s*(level|lv|lvl)?\s*1)?)\s?$)"@, "j.H Level 1"@),
            (r"((j.?H\s*(level|lv|lvl)?\s*2))"@, "j.H Level 2"@),
            (r"((j.?H\s*(level|lv|lvl)?\s*3))"@, "j.H Level 3"@),
            (r"((j.?H\s*(level|lv|lvl)?\s*BR))"@, "j.H Level BR"@),
            (r"(^(j.?D(\s*(level|lv|lvl)?\s*1)?)\s?$)"@, "j.D Level 1"@),
            (r"((j.?D\s*(level|lv|lvl)?\s*2))"@, "j.D Level 2"@),
            (r"((j.?D\s*(level|lv|lvl)?\s*3))"@, "j.D Level 3"@),
            (r"((j.?D\s*(level|lv|lvl)?\s*BR))"@, "j.D Level BR"@),
            (r"((214K|fukyo\s*back))"@, "214K"@),
            (r"((236K|(fukyo(\s*forward))|fukyo$))"@, "236K"@),
            (r"((236S|clone|zarameyuki))"@, "Zarameyuki"@),
            (r"((214HS?|beyblade|kamuriyuki))"@, "Kamuriyuki"@),
            (r"(^(623HS?|shizuriyuki\s?|dp\s?)$)"@, "623H"@),
            (r"((623HS?HS?|((shizuriyuki|dp)\s*(follow|HS?|2))))"@, "623HH"@),
            (r"((623P|bite|command|blood))"@, "Bloodsucking Universe"@),
            (r"((632146S|wasureyuki|reversal))"@, "Wasureyuki"@),
            (r"((632146H|zansetsu|reversal))"@, "Zansetsu"@),
        ],
        CharacterId::MILLIA => seq![
            (r"((S\s*disk|236S))"@, "236S"@),
            (r"((HS?\s*disk|236H))"@, "236H"@),
            (r"((moon|(j.?)?236P))"@, "Bad Moon"@),
            (r"((214P|hair|car))"@, "Iron Savior"@),
            (r"((turbo|fall|(j.?)?236K))"@, "Turbo Fall"@),
            (r"((214K|mirazh))"@, "Mirazh"@),
            (r"((lust|shaker|214S))"@, "Lust Shaker"@),
            (r"((kapel|j.?236HS?))"@, "Kapel"@),
            (r"((632146HS?|winger|reversal))"@, "Winger"@),
            (r"((236236S|septum))"@, "Septum Voices"@),
        ],
        CharacterId::CHIPP => seq![
            (r"((236P|p\s*alpha))"@, "236P"@),
            (r"((j.?236P|((air|j.?)\s*p\s*alpha)))"@, "j.236P"@),
            (r"((236K|k\s*alpha))"@, "236K"@),
            (r"((j.?236K|((air|j.?)\s*k\s*alpha)))"@, "j.236K"@),
            (r"((623S|dp|beta))"@, "623S"@),
            (r"((j.?(623P|dp|beta)))"@, "j.623S"@),
            (r"((236HS?|gamma|clone))"@, "Gamma Blade"@),
            (r"(^(236S|rekka(\s*1)?|resshou)\s?$)"@, "Resshou"@),
            (r"((rekka\s*2|rokusai))"@, "Rokusai"@),
            (r"((senshuu?|rekka\s*3))"@, "Senshuu"@),
            (r"((63214S|command|grab))"@, "Genrou Zan"@),
            (r"((j.?214P|shuriken))"@, "Shuriken"@),
            (r"((632146HS?|zansei))"@, "Zansei Rouga"@),
            (r"((236236P|banki))"@, "Banki Messai"@),
        ],
        CharacterId::SOL => seq![
            (r"((feint|faint|214P))"@, "Gun Flame (Feint)"@),
            (r"(^(gun\s?flame|236P)\s?$)"@, "Gun Flame"@),
            (r"((svv|623S))"@, "623S"@),
            (r"((hvv|623HS?|dp))"@, "623H"@),
            (r"(^(j.?\s*(s?vv|623S))$)"@, "j.633H"@),
            (r"((j.?\s*(hvv|623HS?|dp)))"@, "j.633H"@),
            (r"((revolver|br|236K)$)"@, "236K"@),
            (r"((236KK))"@, "236KK"@),
            (r"((j.?\s*(revolver|br|236K)))"@, "j.236K"@),
            (r"((j.?\s*(236KK)))"@, "j.236KK"@),
            (r"((bringer|bb|236K))"@, "214K"@),
            (r"((j.?\s*(bringer|bb|236K)))"@, "j.214K"@),
            (r"((623K|wild|throw|grab))"@, "Wild Throw"@),
            (r"((nrv|214S|vortex))"@, "Night Raid Vortex"@),
            (r"((fafnir|41236HS?))"@, "Fafnir"@),
            (r"((632146HS?|tyrant|rave))"@, "Tyrant Rave"@),
            (r"((hmc|mob|cemetary|214214HS?))"@, "Heavy Mob Cemetery"@),
        ],
        CharacterId::KY => seq![
            (r"(^(edge|236S)\s?$)"@, "236S"@),
            (r"(DI\s*(edge|236S))"@, "DI 236S"@),
            (r"(^(charge|236HS?)\s?$)"@, "236H"@),
            (r"(DI\s*(charge|236HS?))"@, "DI 236H"@),
            (r"(j.?\s*(arial|236S))"@, "j.236S"@),
            (r"(j.?\s*(arial|236HS?))"@, "DI j.236H"@),
            (r"(^(dip|236K)\s?$)"@, "236K"@),
            (r"(DI\s*(dip|236K))"@, "DI 236K"@),
            (r"(^(flip|foudre|214K)\s?$)"@, "214K"@),
            (r"(DI\s*(flip|foudre|214K))"@, "DI 214K"@),
            (r"(^(623S)\s?$)"@, "623S"@),
            (r"(DI\s*(623S))"@, "DI 623S"@),
            (r"(^(623HS?|dp|vapor|thrust)\s?$)"@, "623H"@),
            (r"(DI\s*(623HS?|dp|vapor|thrust))"@, "DI 623H"@),
            (r"(^(dire|eclat|214S)\s?$)"@, "214S"@),
            (r"(DI\s*(dire|eclat|214S))"@, "DI 214S"@),
            (r"(^(rtl|ride|lightning|632146HS?)\s?$)"@, "632146H"@),
            (r"(DI\s*(rtl|ride|lightning|632146HS?))"@, "DI 632146H"@),
            (r"(^(sacred|236236P)\s?$)"@, "236236P"@),
            (r"(DI\s*(sacred|236236P))"@, "DI 236236P"@),
            (r"(^(di|dragon|install|214214HS?)\s?$)"@, "Dragon Install"@),
        ],
        CharacterId::MAY => seq![
            (r"(^(\[4\]6S|s?\s*dolphin)\s?$)"@, "[4]6S"@),
            (r"(^(\[4\]6HS?|hs?\s*dolphin)\s?$)"@, "[4]6H"@),
            (r"((\[2\]8S|(up|vertical)\s*s?\s*dolphin))"@, "[2]8S"@),
            (r"((\[2\]8HS?|(up|vertical)\s*hs?\s*dolphin))"@, "[2]8H"@),
            (r"((ok|overhead|kiss|623K|command|grab))"@, "Overhead Kiss"@),
            (r"((214P))"@, "214P"@),
            (r"((beach|ball|214K))"@, "214K"@),
            (r"((yamada|236236S))"@, "Great Yamada Attack"@),
            (r"((orca|632146HS?))"@, "The Wonderful and Dynamic Goshogawara"@),
        ],
        CharacterId::ZATO => seq![
            (r"((summon|214HS?))"@, "Summon Eddie"@),
            (r"((unsummon))"@, "Unsummon Eddie"@),
            (r"((pierce|236P))"@, "236P"@),
            (r"((\]P\[|-P-))"@, "]P["@),
            (r"((that's a lot|drills|236K))"@, "236K"@),
            (r"((\]K\[|-K-))"@, "]K["@),
            (r"((leap|frog|236S))"@, "236S"@),
            (r"((\]S\[|-S-))"@, "]S["@),
            (r"((oppose|236HS?))"@, "236H"@),
            (r"((\]HS?\[|-HS?-))"@, "]H["@),
            (r"((invite|hell|22HS?))"@, "Invite Hell"@),
            (r"((btl|break|law|214K))"@, "Break The Law"@),
            (r"((damned|fang|command|grab|623S))"@, "Damned Fang"@),
            (r"((214S|shade|drunk))"@, "Drunkard Shade"@),
            (r"((632146HS?|amongus|amor))"@, "Amorphous"@),
            (r"((sun|void|632146S|sword|excalibur))"@, "Sun Void"@),
        ],
        CharacterId::INO => seq![
            (r"((note|anti|214P))"@, "214P"@),
            (r"((j.?\s*(note|anti|214P)))"@, "j.214P"@),
            (r"((s\s*stroke))"@, "236S"@),
            (r"((hs?\s*stroke))"@, "236H"@),
            (r"((j.?\s*236K))"@, "j.236K"@),
            (r"((j.?\s*236S))"@, "j.236S"@),
            (r"((j.?\s*236HS?))"@, "j.236H"@),
            (r"((love|chemical|214K))"@, "214K"@),
            (r"((j.?\s*(love|chemical|214K)))"@, "j.214K"@),
            (r"((mega|632146HS?))"@, "Megalomania"@),
            (r"((ultimate|fort|632146S))"@, "632146S"@),
            (r"((j.?\s*(ultimate|fort|632146S)))"@, "j.632146S"@),
        ],
        CharacterId::HAPPYCHAOS => seq![
            (r"(^(h)\s?$)"@, "H"@),
            (r"(^(\]H\[|fire|shot)\s?$)"@, "236S H"@),
            (r"((atr|236S|flip))"@, "236S"@),
            (r"(^(steady|aim|sa|214S|steady\s?aim)\s?$)"@, "Steady Aim"@),
            (r"((steady|aim|sa|214S|steady\s?aim)\s*(shot|fire|h))"@, "214S H"@),
            (r"((cancel|2H|stow))"@, "236S 2H"@),
            (r"(((steady|aim|sa)\s*(cancel|stow)))"@, "214S 214S"@),
            (r"((reload|22P))"@, "Reload"@),
            (r"((focus|214P))"@, "Focus"@),
            (r"((curse|ball|236P))"@, "Curse"@),
            (r"((clone|236K))"@, "Scapegoat"@),
            (r"((roll|214K))"@, "Roll"@),
            (r"((dem|deus|ex|machina|632146S))"@, "Deus Ex Machina"@),
            (r"((super\s*focus|214214P))"@, "Super Focus"@),
        ],
        CharacterId::SIN => seq![
            (r"(^(beak|driver|236HS?)\s?$)"@, "Beak Driver"@),
            (r"(((beak|driver|236HS?)\s*(~?H|follow)))"@, "Beak Driver Follow-up"@),
            (r"(^(hawk|baker|623S|dp)\s?$)"@, "Hawk Baker"@),
            (r"(((hawk|baker|623S|dp)\s*(~?S|follow)))"@, "Hawk Baker Follow-up"@),
            (r"(^(elk|hunt|236K)\s?$)"@, "236K"@),
            (r"(((elk|hunt|236K)\s*(~?K|follow)))"@, "236K~K"@),
            (r"(^(hoof|stomp|214S)\s?$)"@, "214S"@),
            (r"(((hoof|stomp|214S)\s*(~?S|follow)))"@, "214S~S"@),
            (r"((gazelle|dash|step))"@, "Gazelle Step"@),
            (r"((food|eat|grow|63214P))"@, "Still Growing"@),
            (r"(^(rtl|ride|lightning|632146HS?)\s?$)"@, "632146H"@),
            (r"(((rtl|ride|lightning|632146HS?)\s*(~?HS?|follow)))"@, "632146HH"@),
            (r"(^(barrel|tyrant|236236P)\s?$)"@, "236236P"@),
            (r"(((barrel|tyrant|236236P)\s*(~?\[?P\]?|follow)))"@, "236236P~]P["@),
        ],
        CharacterId::BAIKEN => seq![
            (r"((tatami|mat|gaeshi|236K))"@, "236K"@),
            (r"((j.?\s*(tatami|mat|gaeshi|236K)))"@, "j.236K"@),
            (r"((tether|s\s*kabari|41236S))"@, "41236S"@),
            (r"((hs?\s*kabari|41236HS?))"@, "41236H"@),
            (r"((^(hs?\s*kabari|41236HS?)\s?$\s*(follow|~?HS?)))"@, "41236H~H"@),
            (r"((yozansen|youzansen|tk|236S))"@, "Youzansen"@),
            (r"((parry|Hiiragi|236P))"@, "Hiiragi"@),
            (r"((236236S|watashi|tsurane|sanzu))"@, "Tsurane Sanzu-watashi"@),
            (r"((gun|kenjyu|214214P))"@, "214214P"@),
            (r"((j.?\s*(gun|kenjyu|214214P)))"@, "j.214214P"@),
        ],
        CharacterId::ANJI => seq![
            (r"((butter|shitsu|fire|236P))"@, "Shitsu"@),
            (r"((parry|suigetsu|spin|236K))"@, "Suigetsu No Hakobi"@),
            (r"(^(fuujin|fujin|236HS?)\s?$)"@, "Fuujin"@),
            (r"(((fuujin|fujin|236HS?)\s*P))"@, "Shin: Ichishiki"@),
            (r"(((fuujin|fujin|236HS?)\s*K))"@, "Issokutobi"@),
            (r"(((fuujin|fujin|236HS?)\s*S))"@, "Nagiha"@),
            (r"(((fuujin|fujin|236HS?)\s*HS?))"@, "Rin"@),
            (r"((kou|236S))"@, "Kou"@),
            (r"((issei|ougi|632146HS?))"@, "Issei Ougi: Sai"@),
            (r"(kach|632146S)"@, "Kachoufuugetsu Kai"@),
        ],
        CharacterId::LEO => seq![
            (r"((hyper|guard|\[HS?\]S|\[S\]HS?))"@, "Guard"@),
            (r"((s\s*(fire|ball|grav)))"@, "[4]6S"@),
            (r"((hs?\s*(fire|ball|grav)))"@, "[4]6H"@),
            (r"(((s\*(dp|ein))|\[2\]8S))"@, "[2]8S"@),
            (r"(((dp|ein)|\[2\]8HS?))"@, "[2]8H"@),
            (r"((236S|erstes))"@, "Erstes Kaltes Gestöber"@),
            (r"((236HS?|zwe))"@, "Zweites Kaltes Gestöber"@),
            (r"((214S|turb))"@, "Turbulenz"@),
            (r"((parry|kahn|schild|sheild|bt\.D))"@, "Kahn-Schild"@),
            (r"((command|grab|dunkel|214K))"@, "Glänzendes Dunkel"@),
            (r"((blitz|214HS?))"@, "Blitzschlag"@),
            (r"((632146S|stahl))"@, "Stahlwirbel"@),
            (r"((632146HS?|lei))"@, "Leidenschaft des Dirigenten"@),
        ],
        CharacterId::FAUST => seq![
            (r"(^(scalpel|thrust|41236K)\s?$)"@, "Thrust"@),
            (r"((pull|back))"@, "Pull Back"@),
            (r"((hit|golf|club|hole|41236K\s*HS?))"@, "Hole in One!"@),
            (r"(^(item|toss|236P|what)\s?$)"@, "What Could This Be?"@),
            (r"((mmm|mix|236S))"@, "Mix Mix Mix"@),
            (r"((snip|command|grab|236HS?))"@, "Snip Snip Snip"@),
            (r"(((j.?)?love|j.?236P))"@, "j.236P"@),
            (r"(((j.?)?love|j.?236P)\s*(afro))"@, "j.236P (With Afro)"@),
            (r"(((p\s*(scare)?crow)|214P))"@, "214P"@),
            (r"(((k\s*(scare)?crow)|214K))"@, "214K"@),
            (r"(((s\s*(scare)?crow)|214S))"@, "214S"@),
            (r"((bone|wheel|chair|reversal|632146HS?))"@, "Bone-crushing Excitement"@),
            (r"(^(236236P|item\s*super)\s?$)"@, "W-W-What Could This Be?"@),
            (r"(^(236236236236P)\s?$)"@, "W-W-W-W-W-W-W-W-W-What Could This Be?"@),
        ],
        CharacterId::AXL => seq![
            (r"(^(rensen|rensin|\[4\]6S|flash)\s?$)"@, "Sickle Flash"@),
            (r"(((rensen|rensin|\[4\]6S|flash)\s*(8|up)))"@, "Soaring Chain Strike"@),
            (r"(((rensen|rensin|\[4\]6S|flash)\s*(2|down)))"@, "Spinning Chain Strike"@),
            (r"((cherry|((rensen|rensin|\[4\]6S|flash)\s*(s|bomb))))"@, "Winter Cherry"@),
            (r"((mantis|command|grab|41236HS?))"@, "Winter Mantis"@),
            (r"((rain|water|216S))"@, "Rainwater"@),
            (r"((snail|214HS?))"@, "214H"@),
            (r"((j.?\s*(snail|214HS?)))"@, "j.214H"@),
            (r"((bomber|j.?\s*236HS?))"@, "Axl Bomber"@),
            (r"((whistling|tornado|wind|214K))"@, "Whistling Wind"@),
            (r"((reversal|storm|236236HS?))"@, "Sickle Storm"@),
            (r"(^(one|vision|time\s*stop|632146P)\s?$)"@, "632146P"@),
            (r"(((one|vision|time\s*stop|632146P)\s*activ))"@, "632146P Attack"@),
        ],
        CharacterId::POTEMKIN => seq![
            (r"(^(pb|grab|buster|360P|632146P)$)"@, "Potemkin Buster"@),
            (r"(^(heat knuckle|knuckle|hk|623HS?)$)"@, "Heat Knuckle"@),
            (r"(^(fmf|mf|236P|forward|mega(\s+fist)?)\s?$)"@, "236P"@),
            (r"((^(back|b)\s*(214P|mf|mega(\s+fist)?)\s?$))"@, "214P"@),
            (r"(((k|kara)\s*(back|b)\s*(mega|fist|214P|mf)))"@, "2146K~P"@),
            (r"((slide|head|236S))"@, "Slide Head"@),
            (r"(^(hammer|fall|hammer\s*fall|\[4\]6HS?|hf)\s?$)"@, "Hammer Fall"@),
            (r"(((hammer|fall|hammer\s*fall|\[4\]6HS?|hf)\s*(break|b)))"@, "Hammer Fall Break"@),
            (r"(^(flick|f.?d.?b.?)\s?$)"@, "F.D.B."@),
            (r"(((flick|f.?d.?b.?)\s*charge))"@, "F.D.B. (Charged)"@),
            (r"(((flick|f.?d.?b.?)\s*(hit|reflect)))"@, "Reflect Projectile"@),
            (r"((garuda|214HS?))"@, "Garuda Impact"@),
            (r"(^(heat tackle|tackle|ht|41236HS?)$)"@, "41236H"@),
            (r"((hpb|236236S|heavenly))"@, "Heavenly Potemkin Buster"@),
            (r"(^(giganter(\s+kai)?|632146HS?)\s?$)"@, "Giganter Kai"@),
            (r"((giganter(\s+kai)?|632146HS?)\s*(barrier))"@, "Giganter Kai (Barrier)"@),
        ],
        CharacterId::RAMLETHAL => seq![
            (r"((623P|dp|dauro))"@, "Dauro"@),
            (r"(^(rekka|214P|erar)\s?$)"@, "214P"@),
            (r"(((rekka|214P|erar)\s*2))"@, "214P 214P"@),
            (r"(((rekka|214P|erar)\s*3))"@, "214P 214P 214P"@),
            (r"((flip|214K|slido))"@, "214K"@),
            (r"((j.?\s*(flip|214K|slido)))"@, "j.214K"@),
            (r"((sword|throw|toss|bajoneto|236S))"@, "236S"@),
            (r"(((hs?)\s*(sword|throw|toss|bajoneto|236HS?)))"@, "236H"@),
            (r"((ordono|agress?a|(j.?\s*214S)))"@, "Agressa Ordono"@),
            (r"((wind|wiper|sab|214HS?))"@, "Sabrobato"@),
            (r"((ondo|rock|236K))"@, "Ondo"@),
            (r"((calvados|63214HS?))"@, "Calvados"@),
            (r"((mortobato|reversal|236236S))"@, "Mortobato"@),
        ],
        CharacterId::GIO => seq![
            (r"((kick|214K|sep))"@, "Sepultura"@),
            (r"((drill|dog|236K|tro))"@, "Trovao"@),
            (r"((623S|dp|nascente))"@, "Sol Nascente"@),
            (r"((214S|sol|poente))"@, "214S"@),
            (r"((j.?\s*(214S|sol|poente)))"@, "j.214S"@),
            (r"((spin|reversal|63214HS?))"@, "Ventania"@),
            (r"((temp|air|(j.?\s*236236HS?)))"@, "Tempestade"@),
        ],
        CharacterId::GOLDLEWIS => seq![
            (r"((41?23?6(HS?)?))"@, "41236H"@),
            (r"((j.?\s*(41?23?6(HS?)?)))"@, "j.41236H"@),
            (r"((63?21?4(HS?)?))"@, "63214H"@),
            (r"((j.?\s*(63?21?4(HS?)?)))"@, "j.63214H"@),
            (r"((23?69?8(HS?)?))"@, "23698H"@),
            (r"((j.?\s*(23?69?8(HS?)?)))"@, "j.23698H"@),
            (r"((21?47?8(HS?)?))"@, "21478H"@),
            (r"((j.?\s*(21?47?8(HS?)?)))"@, "j.21478H"@),
            (r"((69?87?4(HS?)?))"@, "69874H"@),
            (r"((j.?\s*(684(HS?)?)))"@, "j.69874H"@),
            (r"((47?89?6(HS?)?))"@, "47896H"@),
            (r"((j.?\s*(47?89?6(HS?)?)))"@, "j.47896H"@),
            (r"((87?41?2(HS?)?))"@, "87412H"@),
            (r"((j.?\s*(87?41?2(HS?)?)))"@, "j.87412H"@),
            (r"((89?63?2(HS?)?))"@, "89632H"@),
            (r"((j.?\s*(89?63?2(HS?)?)))"@, "j.89632H"@),
            (r"(^(drone|214S)\s?$)"@, "214S Level 1"@),
            (r"(((drone|214S)\s*(level|lv|lvl)?\s*2))"@, "214S Level 2"@),
            (r"(((drone|214S)\s*(level|lv|lvl)?\s*3))"@, "214S Level 3"@),
            (r"(^(gun|mini|skyfish|236S)\s?$)"@, "236S Level 1"@),
            (r"(((gun|mini|skyfish|236S)\s*(level|lv|lvl)?\s*2))"@, "236S Level 2"@),
            (r"(((gun|mini|skyfish|236S)\s*(level|lv|lvl)?\s*3))"@, "236S Level 3"@),
            (r"((dwts|system|reversal|360P?|63214P))"@, "632146P"@),
            (r"((720P?))"@, "720P"@),
            (r"((1080P?))"@, "1080P"@),
            (r"(^(beam|burn|236236K)\s?$)"@, "236236K Level 1"@),
            (r"(((beam|burn|236236K)\s*(level|lv|lvl)?\s*2))"@, "236236K Level 2"@),
            (r"(((beam|burn|236236K)\s*(level|lv|lvl)?\s*3))"@, "236236K Level 3"@),
        ],
        CharacterId::BRIDGET => seq![
            (r"(((236(S|(HS?))|yoyo|toss)))"@, "Stop and Dash (Hit on send)"@),
            (r"((roll|spin|214K))"@, "Rolling Movement"@),
            (r"((dp|starship|623P))"@, "Starship"@),
            (r"(^(car|kick|start|heart|236K)$)"@, "Kick Start My Heart"@),
            (r"((brake|((car|kick|start|heart|236K)\s*P)))"@, "Brake"@),
            (r"((shoot|((car|kick|start|heart|236K)\s*K)))"@, "Shoot"@),
            (r"((dive|(j.?\s*236K)))"@, "Roger Dive"@),
            (r"((command|grab|rock|baby|63214P))"@, "Rock the Baby"@),
            (r"((loop|632146S))"@, "Loop the Loop"@),
            (r"((motor|killing|632146HS?|return))"@, "Return of the Killing Machine"@),
        ],
        CharacterId::BEDMAN => Seq::empty(),
        CharacterId::ASUKA => Seq::empty(),
        CharacterId::JOHNNY => Seq::empty(),
        CharacterId::ELPHELT => Seq::empty(),
        CharacterId::ABA => Seq::empty(),
    }
}

/// The alias bindings of a character as (pattern, canonical name), each pattern made
/// case-insensitive.
pub open spec fn alias_data(id: CharacterId) -> Seq<(Seq<char>, Seq<char>)> {
    alias_bodies(id).map_values(|b: (Seq<char>, Seq<char>)| ("(?i)"@ + b.0, b.1))
}

/// The alias bindings of a character, as (pattern, canonical name) pairs in priority order.
/// Every pattern starts with the case-insensitive flag.
pub fn get_bindings(character_id: CharacterId) -> (r: Vec<(String, String)>)
    ensures
        r@.map_values(|b: (String, String)| text_binding_view(b)) == alias_data(character_id),
        forall|i: int|
            0 <= i < r@.len() ==> (#[trigger] r@[i]).0@.len() >= 4 && r@[i].0@.take(4)
                == case_insensitive_flag(),
{
    let bodies: Vec<(&str, &str)> = match character_id {
            CharacterId::TESTAMENT => vec![
                    (r"(^(j.?)?(236HS?|hs?\s*(grave)?\s*reaper)$)", "236H"),
                    (r"(236\{hs?\}|((med)\s*(j.?)?(236HS?|hs?\s*(grave)?\s*reaper)))", "236{H}"),
                    (r"(236\[hs?\]|((charge|heavy|hard)\s*(j.?)?(236HS?|hs?\s*(grave)?\s*reaper)))", "236[H]"),
                    (r"(^(j.?)?(236S|s\s*(grave)?\s*reaper)$)", "236H"),
                    (r"(236\{s\}|((med)\s*(j.?)?(236S|s\s*(grave)?\s*reaper)))", "236{H}"),
                    (r"(236\[s\]|((charge|heavy|hard)\s*(j.?)?(236S|s\s*(grave)?\s*reaper)))", "236[H]"),
                    (r"((crow|unholy|diver))", "Unholy Diver"),
                    (r"((tele))", "Possession"),
                    (r"((214S|s\s*arbiter))", "214S"),
                    (r"((214H|hs?\s*arbiter))", "214H"),
                    (r"((236P236P|nostrovia|succub))", "Nostrovia"),
                    (r"((236P236K|calamity\s*one|reversal))", "Calamity One"),
                ],
            CharacterId::JACKO => vec![
                    (r"(2D)", "Sweep"),
                    (r"((236K(&|\*)))", "Launched Servant"),
                    (r"((236K|shoot|kick))", "236K"),
                    (r"((236P|summon|pull))", "236P"),
                    (r"((236\[P\]|((pull|summon)\s*hold)))", "236[P]"),
                    (r"((pick|2P))", "2P"),
                    (r"((throw|6(P|K|S|HS?|D)))", "Throw Servant"),
                    (r"((drop|release))", "Release Servant"),
                    (r"((unsummon|recover|recall|214P))", "Recover Servant"),
                    (r"((attack|214K))", "Attack Command"),
                    (r"((defend|block|214S))", "Defend Command"),
                    (r"((countdown|bomb|214HS?))", "Countdown"),
                    (r"((632146P|F.?E.?D|forever\s*elysion\s*driver))", "Forever Elysion Driver"),
                    (r"((s\s*cheer|236236S))", "Cheer Servant On S"),
                    (r"((hs?\s*cheer|236236HS?))", "Cheer Servant On H"),
                ],
            CharacterId::NAGORIYUKI => vec![
                    (r"(^(f.?S(\s*(level|lv|lvl)?\s*1)?)\s?$)", "f.S Level 1"),
                    (r"((f.?S\s*(level|lv|lvl)?\s*2))", "f.S Level 2"),
                    (r"((f.?S\s*(level|lv|lvl)?\s*3))", "f.S Level 3"),
                    (r"((f.?S\s*(level|lv|lvl)?\s*BR))", "f.S Level BR"),
                    (r"(^(f.?SS(\s*(level|lv|lvl)?\s*1)?)\s?$)", "f.SS Level 1"),
                    (r"((f.?SS\s*(level|lv|lvl)?\s*2))", "f.SS Level 2"),
                    (r"((f.?SS\s*(level|lv|lvl)?\s*3))", "f.SS Level 3"),
                    (r"((f.?SS\s*(level|lv|lvl)?\s*BR))", "f.SS Level BR"),
                    (r"(^(f.?SSS(\s*(level|lv|lvl)?\s*1)?)\s?$)", "f.SSS Level 1"),
                    (r"((f.?SSS\s*(level|lv|lvl)?\s*2))", "f.SSS Level 2"),
                    (r"((f.?SSS\s*(level|lv|lvl)?\s*3))", "f.SSS Level 3"),
                    (r"((f.?SSS\s*(level|lv|lvl)?\s*BR))", "f.SSS Level BR"),
                    (r"(^(5?H(\s*(level|lv|lvl)?\s*1)?)\s?$)", "5H Level 1"),
                    (r"((5?H\s*(level|lv|lvl)?\s*2))", "5H Level 2"),
                    (r"((5?H\s*(level|lv|lvl)?\s*3))", "5H Level 3"),
                    (r"((5?H\s*(level|lv|lvl)?\s*BR))", "5H Level BR"),
                    (r"(^(2S(\s*(level|lv|lvl)?\s*1)?)\s?$)", "2S Level 1"),
                    (r"((2S\s*(level|lv|lvl)?\s*2))", "2S Level 2"),
                    (r"((2S\s*(level|lv|lvl)?\s*3))", "2S Level 3"),
                    (r"((2S\s*(level|lv|lvl)?\s*BR))", "2S Level BR"),
                    (r"(^(2H(\s*(level|lv|lvl)?\s*1)?)\s?$)", "2H Level 1"),
                    (r"((2H\s*(level|lv|lvl)?\s*2))", "2H Level 2"),
                    (r"((2H\s*(level|lv|lvl)?\s*3))", "2H Level 3"),
                    (r"((2H\s*(level|lv|lvl)?\s*BR))", "2H Level BR"),
                    (r"(^(6H(\s*(level|lv|lvl)?\s*1)?)\s?$)", "6H Level 1"),
                    (r"((6H\s*(level|lv|lvl)?\s*2))", "6H Level 2"),
                    (r"((6H\s*(level|lv|lvl)?\s*3))", "6H Level 3"),
                    (r"((6H\s*(level|lv|lvl)?\s*BR))", "6H Level BR"),
                    (r"(^(j.?S(\s*(level|lv|lvl)?\s*1)?)\s?$)", "j.S Level 1"),
                    (r"((j.?S\s*(level|lv|lvl)?\s*2))", "j.S Level 2"),
                    (r"((j.?S\s*(level|lv|lvl)?\s*3))", "j.S Level 3"),
                    (r"((j.?S\s*(level|lv|lvl)?\s*BR))", "j.S Level BR"),
                    (r"(^(j.?H(\s*(level|lv|lvl)?\s*1)?)\s?$)", "j.H Level 1"),
                    (r"((j.?H\s*(level|lv|lvl)?\s*2))", "j.H Level 2"),
                    (r"((j.?H\s*(level|lv|lvl)?\s*3))", "j.H Level 3"),
                    (r"((j.?H\s*(level|lv|lvl)?\s*BR))", "j.H Level BR"),
                    (r"(^(j.?D(\s*(level|lv|lvl)?\s*1)?)\s?$)", "j.D Level 1"),
                    (r"((j.?D\s*(level|lv|lvl)?\s*2))", "j.D Level 2"),
                    (r"((j.?D\s*(level|lv|lvl)?\s*3))", "j.D Level 3"),
                    (r"((j.?D\s*(level|lv|lvl)?\s*BR))", "j.D Level BR"),
                    (r"((214K|fukyo\s*back))", "214K"),
                    (r"((236K|(fukyo(\s*forward))|fukyo$))", "236K"),
                    (r"((236S|clone|zarameyuki))", "Zarameyuki"),
                    (r"((214HS?|beyblade|kamuriyuki))", "Kamuriyuki"),
                    (r"(^(623HS?|shizuriyuki\s?|dp\s?)$)", "623H"),
                    (r"((623HS?HS?|((shizuriyuki|dp)\s*(follow|HS?|2))))", "623HH"),
                    (r"((623P|bite|command|blood))", "Bloodsucking Universe"),
                    (r"((632146S|wasureyuki|reversal))", "Wasureyuki"),
                    (r"((632146H|zansetsu|reversal))", "Zansetsu"),
                ],
            CharacterId::MILLIA => vec![
                    (r"((S\s*disk|236S))", "236S"),
                    (r"((HS?\s*disk|236H))", "236H"),
                    (r"((moon|(j.?)?236P))", "Bad Moon"),
                    (r"((214P|hair|car))", "Iron Savior"),
                    (r"((turbo|fall|(j.?)?236K))", "Turbo Fall"),
                    (r"((214K|mirazh))", "Mirazh"),
                    (r"((lust|shaker|214S))", "Lust Shaker"),
                    (r"((kapel|j.?236HS?))", "Kapel"),
                    (r"((632146HS?|winger|reversal))", "Winger"),
                    (r"((236236S|septum))", "Septum Voices"),
                ],
            CharacterId::CHIPP => vec![
                    (r"((236P|p\s*alpha))", "236P"),
                    (r"((j.?236P|((air|j.?)\s*p\s*alpha)))", "j.236P"),
                    (r"((236K|k\s*alpha))", "236K"),
                    (r"((j.?236K|((air|j.?)\s*k\s*alpha)))", "j.236K"),
                    (r"((623S|dp|beta))", "623S"),
                    (r"((j.?(623P|dp|beta)))", "j.623S"),
                    (r"((236HS?|gamma|clone))", "Gamma Blade"),
                    (r"(^(236S|rekka(\s*1)?|resshou)\s?$)", "Resshou"),
                    (r"((rekka\s*2|rokusai))", "Rokusai"),
                    (r"((senshuu?|rekka\s*3))", "Senshuu"),
                    (r"((63214S|command|grab))", "Genrou Zan"),
                    (r"((j.?214P|shuriken))", "Shuriken"),
                    (r"((632146HS?|zansei))", "Zansei Rouga"),
                    (r"((236236P|banki))", "Banki Messai"),
                ],
            CharacterId::SOL => vec![
                    (r"((feint|faint|214P))", "Gun Flame (Feint)"),
                    (r"(^(gun\s?flame|236P)\s?$)", "Gun Flame"),
                    (r"((svv|623S))", "623S"),
                    (r"((hvv|623HS?|dp))", "623H"),
                    (r"(^(j.?\s*(s?vv|623S))$)", "j.633H"),
                    (r"((j.?\s*(hvv|623HS?|dp)))", "j.633H"),
                    (r"((revolver|br|236K)$)", "236K"),
                    (r"((236KK))", "236KK"),
                    (r"((j.?\s*(revolver|br|236K)))", "j.236K"),
                    (r"((j.?\s*(236KK)))", "j.236KK"),
                    (r"((bringer|bb|236K))", "214K"),
                    (r"((j.?\s*(bringer|bb|236K)))", "j.214K"),
                    (r"((623K|wild|throw|grab))", "Wild Throw"),
                    (r"((nrv|214S|vortex))", "Night Raid Vortex"),
                    (r"((fafnir|41236HS?))", "Fafnir"),
                    (r"((632146HS?|tyrant|rave))", "Tyrant Rave"),
                    (r"((hmc|mob|cemetary|214214HS?))", "Heavy Mob Cemetery"),
                ],
            CharacterId::KY => vec![
                    (r"(^(edge|236S)\s?$)", "236S"),
                    (r"(DI\s*(edge|236S))", "DI 236S"),
                    (r"(^(charge|236HS?)\s?$)", "236H"),
                    (r"(DI\s*(charge|236HS?))", "DI 236H"),
                    (r"(j.?\s*(arial|236S))", "j.236S"),
                    (r"(j.?\s*(arial|236HS?))", "DI j.236H"),
                    (r"(^(dip|236K)\s?$)", "236K"),
                    (r"(DI\s*(dip|236K))", "DI 236K"),
                    (r"(^(flip|foudre|214K)\s?$)", "214K"),
                    (r"(DI\s*(flip|foudre|214K))", "DI 214K"),
                    (r"(^(623S)\s?$)", "623S"),
                    (r"(DI\s*(623S))", "DI 623S"),
                    (r"(^(623HS?|dp|vapor|thrust)\s?$)", "623H"),
                    (r"(DI\s*(623HS?|dp|vapor|thrust))", "DI 623H"),
                    (r"(^(dire|eclat|214S)\s?$)", "214S"),
                    (r"(DI\s*(dire|eclat|214S))", "DI 214S"),
                    (r"(^(rtl|ride|lightning|632146HS?)\s?$)", "632146H"),
                    (r"(DI\s*(rtl|ride|lightning|632146HS?))", "DI 632146H"),
                    (r"(^(sacred|236236P)\s?$)", "236236P"),
                    (r"(DI\s*(sacred|236236P))", "DI 236236P"),
                    (r"(^(di|dragon|install|214214HS?)\s?$)", "Dragon Install"),
                ],
            CharacterId::MAY => vec![
                    (r"(^(\[4\]6S|s?\s*dolphin)\s?$)", "[4]6S"),
                    (r"(^(\[4\]6HS?|hs?\s*dolphin)\s?$)", "[4]6H"),
                    (r"((\[2\]8S|(up|vertical)\s*s?\s*dolphin))", "[2]8S"),
                    (r"((\[2\]8HS?|(up|vertical)\s*hs?\s*dolphin))", "[2]8H"),
                    (r"((ok|overhead|kiss|623K|command|grab))", "Overhead Kiss"),
                    (r"((214P))", "214P"),
                    (r"((beach|ball|214K))", "214K"),
                    (r"((yamada|236236S))", "Great Yamada Attack"),
                    (r"((orca|632146HS?))", "The Wonderful and Dynamic Goshogawara"),
                ],
            CharacterId::ZATO => vec![
                    (r"((summon|214HS?))", "Summon Eddie"),
                    (r"((unsummon))", "Unsummon Eddie"),
                    (r"((pierce|236P))", "236P"),
                    (r"((\]P\[|-P-))", "]P["),
                    (r"((that's a lot|drills|236K))", "236K"),
                    (r"((\]K\[|-K-))", "]K["),
                    (r"((leap|frog|236S))", "236S"),
                    (r"((\]S\[|-S-))", "]S["),
                    (r"((oppose|236HS?))", "236H"),
                    (r"((\]HS?\[|-HS?-))", "]H["),
                    (r"((invite|hell|22HS?))", "Invite Hell"),
                    (r"((btl|break|law|214K))", "Break The Law"),
                    (r"((damned|fang|command|grab|623S))", "Damned Fang"),
                    (r"((214S|shade|drunk))", "Drunkard Shade"),
                    (r"((632146HS?|amongus|amor))", "Amorphous"),
                    (r"((sun|void|632146S|sword|excalibur))", "Sun Void"),
                ],
            CharacterId::INO => vec![
                    (r"((note|anti|214P))", "214P"),
                    (r"((j.?\s*(note|anti|214P)))", "j.214P"),
                    (r"((s\s*stroke))", "236S"),
                    (r"((hs?\s*stroke))", "236H"),
                    (r"((j.?\s*236K))", "j.236K"),
                    (r"((j.?\s*236S))", "j.236S"),
                    (r"((j.?\s*236HS?))", "j.236H"),
                    (r"((love|chemical|214K))", "214K"),
                    (r"((j.?\s*(love|chemical|214K)))", "j.214K"),
                    (r"((mega|632146HS?))", "Megalomania"),
                    (r"((ultimate|fort|632146S))", "632146S"),
                    (r"((j.?\s*(ultimate|fort|632146S)))", "j.632146S"),
                ],
            CharacterId::HAPPYCHAOS => vec![
                    (r"(^(h)\s?$)", "H"),
                    (r"(^(\]H\[|fire|shot)\s?$)", "236S H"),
                    (r"((atr|236S|flip))", "236S"),
                    (r"(^(steady|aim|sa|214S|steady\s?aim)\s?$)", "Steady Aim"),
                    (r"((steady|aim|sa|214S|steady\s?aim)\s*(shot|fire|h))", "214S H"),
                    (r"((cancel|2H|stow))", "236S 2H"),
                    (r"(((steady|aim|sa)\s*(cancel|stow)))", "214S 214S"),
                    (r"((reload|22P))", "Reload"),
                    (r"((focus|214P))", "Focus"),
                    (r"((curse|ball|236P))", "Curse"),
                    (r"((clone|236K))", "Scapegoat"),
                    (r"((roll|214K))", "Roll"),
                    (r"((dem|deus|ex|machina|632146S))", "Deus Ex Machina"),
                    (r"((super\s*focus|214214P))", "Super Focus"),
                ],
            CharacterId::SIN => vec![
                    (r"(^(beak|driver|236HS?)\s?$)", "Beak Driver"),
                    (r"(((beak|driver|236HS?)\s*(~?H|follow)))", "Beak Driver Follow-up"),
                    (r"(^(hawk|baker|623S|dp)\s?$)", "Hawk Baker"),
                    (r"(((hawk|baker|623S|dp)\s*(~?S|follow)))", "Hawk Baker Follow-up"),
                    (r"(^(elk|hunt|236K)\s?$)", "236K"),
                    (r"(((elk|hunt|236K)\s*(~?K|follow)))", "236K~K"),
                    (r"(^(hoof|stomp|214S)\s?$)", "214S"),
                    (r"(((hoof|stomp|214S)\s*(~?S|follow)))", "214S~S"),
                    (r"((gazelle|dash|step))", "Gazelle Step"),
                    (r"((food|eat|grow|63214P))", "Still Growing"),
                    (r"(^(rtl|ride|lightning|632146HS?)\s?$)", "632146H"),
                    (r"(((rtl|ride|lightning|632146HS?)\s*(~?HS?|follow)))", "632146HH"),
                    (r"(^(barrel|tyrant|236236P)\s?$)", "236236P"),
                    (r"(((barrel|tyrant|236236P)\s*(~?\[?P\]?|follow)))", "236236P~]P["),
                ],
            CharacterId::BAIKEN => vec![
                    (r"((tatami|mat|gaeshi|236K))", "236K"),
                    (r"((j.?\s*(tatami|mat|gaeshi|236K)))", "j.236K"),
                    (r"((tether|s\s*kabari|41236S))", "41236S"),
                    (r"((hs?\s*kabari|41236HS?))", "41236H"),
                    (r"((^(hs?\s*kabari|41236HS?)\s?$\s*(follow|~?HS?)))", "41236H~H"),
                    (r"((yozansen|youzansen|tk|236S))", "Youzansen"),
                    (r"((parry|Hiiragi|236P))", "Hiiragi"),
                    (r"((236236S|watashi|tsurane|sanzu))", "Tsurane Sanzu-watashi"),
                    (r"((gun|kenjyu|214214P))", "214214P"),
                    (r"((j.?\s*(gun|kenjyu|214214P)))", "j.214214P"),
                ],
            CharacterId::ANJI => vec![
                    (r"((butter|shitsu|fire|236P))", "Shitsu"),
                    (r"((parry|suigetsu|spin|236K))", "Suigetsu No Hakobi"),
                    (r"(^(fuujin|fujin|236HS?)\s?$)", "Fuujin"),
                    (r"(((fuujin|fujin|236HS?)\s*P))", "Shin: Ichishiki"),
                    (r"(((fuujin|fujin|236HS?)\s*K))", "Issokutobi"),
                    (r"(((fuujin|fujin|236HS?)\s*S))", "Nagiha"),
                    (r"(((fuujin|fujin|236HS?)\s*HS?))", "Rin"),
                    (r"((kou|236S))", "Kou"),
                    (r"((issei|ougi|632146HS?))", "Issei Ougi: Sai"),
                    (r"(kach|632146S)", "Kachoufuugetsu Kai"),
                ],
            CharacterId::LEO => vec![
                    (r"((hyper|guard|\[HS?\]S|\[S\]HS?))", "Guard"),
                    (r"((s\s*(fire|ball|grav)))", "[4]6S"),
                    (r"((hs?\s*(fire|ball|grav)))", "[4]6H"),
                    (r"(((s\*(dp|ein))|\[2\]8S))", "[2]8S"),
                    (r"(((dp|ein)|\[2\]8HS?))", "[2]8H"),
                    (r"((236S|erstes))", "Erstes Kaltes Gestöber"),
                    (r"((236HS?|zwe))", "Zweites Kaltes Gestöber"),
                    (r"((214S|turb))", "Turbulenz"),
                    (r"((parry|kahn|schild|sheild|bt\.D))", "Kahn-Schild"),
                    (r"((command|grab|dunkel|214K))", "Glänzendes Dunkel"),
                    (r"((blitz|214HS?))", "Blitzschlag"),
                    (r"((632146S|stahl))", "Stahlwirbel"),
                    (r"((632146HS?|lei))", "Leidenschaft des Dirigenten"),
                ],
            CharacterId::FAUST => vec![
                    (r"(^(scalpel|thrust|41236K)\s?$)", "Thrust"),
                    (r"((pull|back))", "Pull Back"),
                    (r"((hit|golf|club|hole|41236K\s*HS?))", "Hole in One!"),
                    (r"(^(item|toss|236P|what)\s?$)", "What Could This Be?"),
                    (r"((mmm|mix|236S))", "Mix Mix Mix"),
                    (r"((snip|command|grab|236HS?))", "Snip Snip Snip"),
                    (r"(((j.?)?love|j.?236P))", "j.236P"),
                    (r"(((j.?)?love|j.?236P)\s*(afro))", "j.236P (With Afro)"),
                    (r"(((p\s*(scare)?crow)|214P))", "214P"),
                    (r"(((k\s*(scare)?crow)|214K))", "214K"),
                    (r"(((s\s*(scare)?crow)|214S))", "214S"),
                    (r"((bone|wheel|chair|reversal|632146HS?))", "Bone-crushing Excitement"),
                    (r"(^(236236P|item\s*super)\s?$)", "W-W-What Could This Be?"),
                    (r"(^(236236236236P)\s?$)", "W-W-W-W-W-W-W-W-W-What Could This Be?"),
                ],
            CharacterId::AXL => vec![
                    (r"(^(rensen|rensin|\[4\]6S|flash)\s?$)", "Sickle Flash"),
                    (r"(((rensen|rensin|\[4\]6S|flash)\s*(8|up)))", "Soaring Chain Strike"),
                    (r"(((rensen|rensin|\[4\]6S|flash)\s*(2|down)))", "Spinning Chain Strike"),
                    (r"((cherry|((rensen|rensin|\[4\]6S|flash)\s*(s|bomb))))", "Winter Cherry"),
                    (r"((mantis|command|grab|41236HS?))", "Winter Mantis"),
                    (r"((rain|water|216S))", "Rainwater"),
                    (r"((snail|214HS?))", "214H"),
                    (r"((j.?\s*(snail|214HS?)))", "j.214H"),
                    (r"((bomber|j.?\s*236HS?))", "Axl Bomber"),
                    (r"((whistling|tornado|wind|214K))", "Whistling Wind"),
                    (r"((reversal|storm|236236HS?))", "Sickle Storm"),
                    (r"(^(one|vision|time\s*stop|632146P)\s?$)", "632146P"),
                    (r"(((one|vision|time\s*stop|632146P)\s*activ))", "632146P Attack"),
                ],
            CharacterId::POTEMKIN => vec![
                    (r"(^(pb|grab|buster|360P|632146P)$)", "Potemkin Buster"),
                    (r"(^(heat knuckle|knuckle|hk|623HS?)$)", "Heat Knuckle"),
                    (r"(^(fmf|mf|236P|forward|mega(\s+fist)?)\s?$)", "236P"),
                    (r"((^(back|b)\s*(214P|mf|mega(\s+fist)?)\s?$))", "214P"),
                    (r"(((k|kara)\s*(back|b)\s*(mega|fist|214P|mf)))", "2146K~P"),
                    (r"((slide|head|236S))", "Slide Head"),
                    (r"(^(hammer|fall|hammer\s*fall|\[4\]6HS?|hf)\s?$)", "Hammer Fall"),
                    (r"(((hammer|fall|hammer\s*fall|\[4\]6HS?|hf)\s*(break|b)))", "Hammer Fall Break"),
                    (r"(^(flick|f.?d.?b.?)\s?$)", "F.D.B."),
                    (r"(((flick|f.?d.?b.?)\s*charge))", "F.D.B. (Charged)"),
                    (r"(((flick|f.?d.?b.?)\s*(hit|reflect)))", "Reflect Projectile"),
                    (r"((garuda|214HS?))", "Garuda Impact"),
                    (r"(^(heat tackle|tackle|ht|41236HS?)$)", "41236H"),
                    (r"((hpb|236236S|heavenly))", "Heavenly Potemkin Buster"),
                    (r"(^(giganter(\s+kai)?|632146HS?)\s?$)", "Giganter Kai"),
                    (r"((giganter(\s+kai)?|632146HS?)\s*(barrier))", "Giganter Kai (Barrier)"),
                ],
            CharacterId::RAMLETHAL => vec![
                    (r"((623P|dp|dauro))", "Dauro"),
                    (r"(^(rekka|214P|erar)\s?$)", "214P"),
                    (r"(((rekka|214P|erar)\s*2))", "214P 214P"),
                    (r"(((rekka|214P|erar)\s*3))", "214P 214P 214P"),
                    (r"((flip|214K|slido))", "214K"),
                    (r"((j.?\s*(flip|214K|slido)))", "j.214K"),
                    (r"((sword|throw|toss|bajoneto|236S))", "236S"),
                    (r"(((hs?)\s*(sword|throw|toss|bajoneto|236HS?)))", "236H"),
                    (r"((ordono|agress?a|(j.?\s*214S)))", "Agressa Ordono"),
                    (r"((wind|wiper|sab|214HS?))", "Sabrobato"),
                    (r"((ondo|rock|236K))", "Ondo"),
                    (r"((calvados|63214HS?))", "Calvados"),
                    (r"((mortobato|reversal|236236S))", "Mortobato"),
                ],
            CharacterId::GIO => vec![
                    (r"((kick|214K|sep))", "Sepultura"),
                    (r"((drill|dog|236K|tro))", "Trovao"),
                    (r"((623S|dp|nascente))", "Sol Nascente"),
                    (r"((214S|sol|poente))", "214S"),
                    (r"((j.?\s*(214S|sol|poente)))", "j.214S"),
                    (r"((spin|reversal|63214HS?))", "Ventania"),
                    (r"((temp|air|(j.?\s*236236HS?)))", "Tempestade"),
                ],
            CharacterId::GOLDLEWIS => vec![
                    (r"((41?23?6(HS?)?))", "41236H"),
                    (r"((j.?\s*(41?23?6(HS?)?)))", "j.41236H"),
                    (r"((63?21?4(HS?)?))", "63214H"),
                    (r"((j.?\s*(63?21?4(HS?)?)))", "j.63214H"),
                    (r"((23?69?8(HS?)?))", "23698H"),
                    (r"((j.?\s*(23?69?8(HS?)?)))", "j.23698H"),
                    (r"((21?47?8(HS?)?))", "21478H"),
                    (r"((j.?\s*(21?47?8(HS?)?)))", "j.21478H"),
                    (r"((69?87?4(HS?)?))", "69874H"),
                    (r"((j.?\s*(684(HS?)?)))", "j.69874H"),
                    (r"((47?89?6(HS?)?))", "47896H"),
                    (r"((j.?\s*(47?89?6(HS?)?)))", "j.47896H"),
                    (r"((87?41?2(HS?)?))", "87412H"),
                    (r"((j.?\s*(87?41?2(HS?)?)))", "j.87412H"),
                    (r"((89?63?2(HS?)?))", "89632H"),
                    (r"((j.?\s*(89?63?2(HS?)?)))", "j.89632H"),
                    (r"(^(drone|214S)\s?$)", "214S Level 1"),
                    (r"(((drone|214S)\s*(level|lv|lvl)?\s*2))", "214S Level 2"),
                    (r"(((drone|214S)\s*(level|lv|lvl)?\s*3))", "214S Level 3"),
                    (r"(^(gun|mini|skyfish|236S)\s?$)", "236S Level 1"),
                    (r"(((gun|mini|skyfish|236S)\s*(level|lv|lvl)?\s*2))", "236S Level 2"),
                    (r"(((gun|mini|skyfish|236S)\s*(level|lv|lvl)?\s*3))", "236S Level 3"),
                    (r"((dwts|system|reversal|360P?|63214P))", "632146P"),
                    (r"((720P?))", "720P"),
                    (r"((1080P?))", "1080P"),
                    (r"(^(beam|burn|236236K)\s?$)", "236236K Level 1"),
                    (r"(((beam|burn|236236K)\s*(level|lv|lvl)?\s*2))", "236236K Level 2"),
                    (r"(((beam|burn|236236K)\s*(level|lv|lvl)?\s*3))", "236236K Level 3"),
                ],
            CharacterId::BRIDGET => vec![
                    (r"(((236(S|(HS?))|yoyo|toss)))", "Stop and Dash (Hit on send)"),
                    (r"((roll|spin|214K))", "Rolling Movement"),
                    (r"((dp|starship|623P))", "Starship"),
                    (r"(^(car|kick|start|heart|236K)$)", "Kick Start My Heart"),
                    (r"((brake|((car|kick|start|heart|236K)\s*P)))", "Brake"),
                    (r"((shoot|((car|kick|start|heart|236K)\s*K)))", "Shoot"),
                    (r"((dive|(j.?\s*236K)))", "Roger Dive"),
                    (r"((command|grab|rock|baby|63214P))", "Rock the Baby"),
                    (r"((loop|632146S))", "Loop the Loop"),
                    (r"((motor|killing|632146HS?|return))", "Return of the Killing Machine"),
                ],
            CharacterId::BEDMAN => vec![],
            CharacterId::ASUKA => vec![],
            CharacterId::JOHNNY => vec![],
            CharacterId::ELPHELT => vec![],
            CharacterId::ABA => vec![],
    };
    let ghost given = bodies@.map_values(|b: (&str, &str)| (b.0@, b.1@));
    assert(given =~= alias_bodies(character_id));
    let mut r: Vec<(String, String)> = Vec::new();
    let mut i: usize = 0;
    while i < bodies.len()
        invariant
            i <= bodies@.len(),
            given == bodies@.map_values(|b: (&str, &str)| (b.0@, b.1@)),
            r@.len() == i,
            forall|k: int|
                0 <= k < i ==> text_binding_view(#[trigger] r@[k]) == ("(?i)"@ + given[k].0, given[k].1),
            forall|k: int|
                0 <= k < r@.len() ==> (#[trigger] r@[k]).0@.len() >= 4 && r@[k].0@.take(4)
                    == case_insensitive_flag(),
        decreases bodies@.len() - i,
    {
        let (body, name) = bodies[i];
        let mut pattern = String::from_str("(?i)");
        proof {
            reveal_strlit("(?i)");
        }
        pattern.append(body);
        assert(pattern@.take(4) =~= case_insensitive_flag());
        r.push((pattern, String::from_str(name)));
        i += 1;
    }
    assert(r@.map_values(|b: (String, String)| text_binding_view(b)) =~= alias_data(character_id));
    r
}

/// A binding as (pattern text, canonical name).
pub open spec fn compiled_binding_view(b: (regex::Regex, String)) -> (Seq<char>, Seq<char>) {
    (regex_source(b.0), b.1@)
}

/// A binding given as text, as (pattern text, canonical name).
pub open spec fn text_binding_view(b: (String, String)) -> (Seq<char>, Seq<char>) {
    (b.0@, b.1@)
}

/// Whether a binding is for a move with this raw notation or canonical name.
pub open spec fn binds(b: (Seq<char>, Seq<char>), input: Seq<char>, name: Seq<char>) -> bool {
    ascii_eq_ignore_case(b.1, input) || ascii_eq_ignore_case(b.1, name)
}

/// The first binding for a move with this notation or name, if any.
pub open spec fn binding_position(
    bindings: Seq<(Seq<char>, Seq<char>)>,
    input: Seq<char>,
    name: Seq<char>,
) -> Option<int> {
    first_where(bindings.len() as int, |j: int| binds(bindings[j], input, name))
}

/// The matching pattern of a move: the first alias bound to its notation or name, else the
/// fallback pattern of its notation.
pub open spec fn move_pattern(
    bindings: Seq<(Seq<char>, Seq<char>)>,
    input: Seq<char>,
    name: Seq<char>,
) -> Seq<char> {
    match binding_position(bindings, input, name) {
        Some(j) => bindings[j].0,
        None => fallback_source(input),
    }
}

/// The compiled alias table: for each character, at its registration position
/// (`CharacterId::index`), its bindings in priority order.
#[derive(Debug)]
pub struct AliasTable {
    pub entries: Vec<Vec<(regex::Regex, String)>>,
}

impl AliasTable {
    /// One list of bindings per character, every pattern accepted by the regex engine.
    pub open spec fn wf(&self) -> bool {
        &&& self.entries@.len() == CHARACTER_COUNT
        &&& forall|i: int, j: int|
            0 <= i < self.entries@.len() && 0 <= j < self.entries@[i]@.len() ==> regex_compiles(
                regex_source(#[trigger] self.entries@[i]@[j].0),
            ) && reads_as_written(self.entries@[i]@[j].0)
    }

    /// The bindings of a character as (pattern text, canonical name).
    pub open spec fn bindings_of(&self, id: CharacterId) -> Seq<(Seq<char>, Seq<char>)> {
        self.entries@[id.spec_index() as int]@.map_values(|b: (regex::Regex, String)| compiled_binding_view(b))
    }

    /// Compiles every pattern of the given bindings, one list per character; fails with the
    /// first pattern that the regex engine refuses.
    pub fn from_bindings(raw: &Vec<Vec<(String, String)>>) -> (r: Result<AliasTable, PatternError>)
        ensures
            r is Ok <==> forall|i: int, j: int|
                0 <= i < raw@.len() && 0 <= j < raw@[i]@.len() ==> regex_compiles(
                    (#[trigger] raw@[i]@[j]).0@,
                ),
            r is Ok ==> {
                let t = r->Ok_0;
                &&& t.entries@.len() == raw@.len()
                &&& forall|i: int|
                    0 <= i < raw@.len() ==> (#[trigger] t.entries@[i])@.map_values(
                        |b: (regex::Regex, String)| compiled_binding_view(b),
                    ) == raw@[i]@.map_values(|b: (String, String)| text_binding_view(b))
                &&& forall|i: int, j: int|
                    0 <= i < t.entries@.len() && 0 <= j < t.entries@[i]@.len() ==> regex_compiles(
                        regex_source(#[trigger] t.entries@[i]@[j].0),
                    ) && reads_as_written(t.entries@[i]@[j].0)
            },
            r is Err ==> exists|i: int, j: int|
                0 <= i < raw@.len() && 0 <= j < raw@[i]@.len() && (#[trigger] raw@[i]@[j]).0@
                    == r->Err_0.pattern@ && !regex_compiles(r->Err_0.pattern@),
    {
        let mut entries: Vec<Vec<(regex::Regex, String)>> = Vec::new();
        let mut i: usize = 0;
        while i < raw.len()
            invariant
                i <= raw@.len(),
                entries@.len() == i,
                forall|a: int|
                    0 <= a < i ==> (#[trigger] entries@[a])@.map_values(
                        |b: (regex::Regex, String)| compiled_binding_view(b),
                    ) == raw@[a]@.map_values(|b: (String, String)| text_binding_view(b)),
                forall|a: int, j: int|
                    0 <= a < i && 0 <= j < raw@[a]@.len() ==> regex_compiles(
                        (#[trigger] raw@[a]@[j]).0@,
                    ),
                forall|a: int, j: int|
                    0 <= a < entries@.len() && 0 <= j < entries@[a]@.len() ==> regex_compiles(
                        regex_source(#[trigger] entries@[a]@[j].0),
                    ) && reads_as_written(entries@[a]@[j].0),
            decreases raw@.len() - i,
        {
            let row = &raw[i];
            let mut compiled: Vec<(regex::Regex, String)> = Vec::new();
            let mut j: usize = 0;
            while j < row.len()
                invariant
                    i < raw@.len(),
                    row == raw@[i as int],
                    j <= row@.len(),
                    compiled@.len() == j,
                    forall|k: int|
                        0 <= k < j ==> compiled_binding_view(#[trigger] compiled@[k])
                            == text_binding_view(row@[k]),
                    forall|k: int| 0 <= k < j ==> regex_compiles((#[trigger] row@[k]).0@),
                    forall|k: int| 0 <= k < j ==> reads_as_written((#[trigger] compiled@[k]).0),
                decreases row@.len() - j,
            {
                let pattern = &row[j].0;
                match compile_regex(pattern.as_str()) {
                    Some(re) => {
                        assert(reads_as_written(re));
                        compiled.push((re, row[j].1.clone()));
                    },
                    None => {
                        return Err(PatternError { pattern: pattern.clone() });
                    },
                }
                j += 1;
            }
            assert(compiled@.map_values(|b: (regex::Regex, String)| compiled_binding_view(b))
                =~= row@.map_values(|b: (String, String)| text_binding_view(b)));
            entries.push(compiled);
            i += 1;
        }
        Ok(AliasTable { entries })
    }

    /// The first alias pattern bound to a move of this character with this raw notation or
    /// canonical name, ignoring ASCII case.
    pub fn get_regex_binding(&self, character_id: CharacterId, input: &str, name: &str) -> (r:
        Option<regex::Regex>)
        requires
            self.wf(),
        ensures
            r is Some <==> binding_position(self.bindings_of(character_id), input@, name@) is Some,
            r is Some ==> reads_as_written(r->Some_0),
            r is Some ==> regex_source(r->Some_0) == self.bindings_of(character_id)[binding_position(
                self.bindings_of(character_id),
                input@,
                name@,
            )->Some_0].0,
    {
        let bindings = &self.entries[character_id.index()];
        let ghost views = self.bindings_of(character_id);
        let mut j: usize = 0;
        while j < bindings.len()
            invariant
                self.wf(),
                bindings == self.entries@[character_id.spec_index() as int],
                views == self.bindings_of(character_id),
                j <= bindings@.len(),
                forall|k: int| 0 <= k < j ==> !binds(#[trigger] views[k], input@, name@),
            decreases bindings@.len() - j,
        {
            let bind = &bindings[j].1;
            if eq_ignore_case(bind.as_str(), input) || eq_ignore_case(bind.as_str(), name) {
                proof {
                    lemma_first_where_is(
                        views.len() as int,
                        |k: int| binds(views[k], input@, name@),
                        j as int,
                    );
                }
                let found = bindings[j].0.clone();
                proof {
                    let c = character_id.spec_index() as int;
                    assert(reads_as_written(self.entries@[c]@[j as int].0));
                    assert forall|h: Seq<char>| #[trigger] regex_accepts(found, h) == regex_matches(
                        regex_source(found),
                        h,
                    ) by {
                        assert(regex_accepts(bindings@[j as int].0, h) == regex_matches(
                            regex_source(bindings@[j as int].0),
                            h,
                        ));
                    }
                }
                return Some(found);
            }
            j += 1;
        }
        proof {
            lemma_first_where_none(views.len() as int, |k: int| binds(views[k], input@, name@));
        }
        None
    }

    /// The matching pattern of a move of this character with this notation and name: the
    /// first bound alias, else the fallback pattern of the notation, which fails only where
    /// the regex engine refuses it.
    pub fn move_regex(&self, character_id: CharacterId, input: &str, name: &str) -> (r: Result<
        regex::Regex,
        PatternError,
    >)
        requires
            self.wf(),
        ensures
            r is Ok <==> regex_compiles(move_pattern(self.bindings_of(character_id), input@, name@)),
            r is Ok ==> reads_as_written(r->Ok_0),
            r is Ok ==> regex_source(r->Ok_0) == move_pattern(
                self.bindings_of(character_id),
                input@,
                name@,
            ),
            r is Err ==> r->Err_0.pattern@ == move_pattern(
                self.bindings_of(character_id),
                input@,
                name@,
            ),
    {
        match self.get_regex_binding(character_id, input, name) {
            Some(re) => {
                proof {
                    let j = binding_position(self.bindings_of(character_id), input@, name@)->Some_0;
                    let c = character_id.spec_index() as int;
                    assert(regex_compiles(regex_source(self.entries@[c]@[j].0)));
                }
                Ok(re)
            },
            None => fallback_regex(input),
        }
    }
}

/// Whether the regex engine accepts every alias pattern of every character.
pub open spec fn all_aliases_compile() -> bool {
    forall|id: CharacterId, j: int|
        0 <= j < alias_data(id).len() ==> regex_compiles(#[trigger] alias_data(id)[j].0)
}

/// Builds the alias table of every character once, compiling each pattern; fails with the
/// first pattern that the regex engine refuses.
pub fn get_all_bindings() -> (r: Result<AliasTable, PatternError>)
    ensures
        r is Ok <==> all_aliases_compile(),
        r is Ok ==> r->Ok_0.wf() && forall|id: CharacterId|
            #[trigger] r->Ok_0.bindings_of(id) == alias_data(id),
        r is Err ==> !regex_compiles(r->Err_0.pattern@),
{
    let ids = CharacterId::all();
    let mut raw: Vec<Vec<(String, String)>> = Vec::new();
    let mut i: usize = 0;
    while i < ids.len()
        invariant
            ids@.len() == CHARACTER_COUNT,
            forall|k: int| 0 <= k < ids@.len() ==> (#[trigger] ids@[k]).spec_index() == k,
            forall|c: CharacterId| #[trigger] ids@[c.spec_index() as int] == c,
            i <= ids@.len(),
            raw@.len() == i,
            forall|a: int|
                0 <= a < i ==> (#[trigger] raw@[a])@.map_values(
                    |b: (String, String)| text_binding_view(b),
                ) == alias_data(ids@[a]),
        decreases ids@.len() - i,
    {
        raw.push(get_bindings(ids[i]));
        i += 1;
    }
    let r = AliasTable::from_bindings(&raw);
    proof {
        let given = |a: int| raw@[a]@.map_values(|b: (String, String)| text_binding_view(b));
        assert forall|a: int, j: int| 0 <= a < raw@.len() && 0 <= j < raw@[a]@.len() implies (
        #[trigger] raw@[a]@[j]).0@ == alias_data(ids@[a])[j].0 by {
            assert(given(a)[j] == text_binding_view(raw@[a]@[j]));
        }
        if all_aliases_compile() {
            assert forall|a: int, j: int| 0 <= a < raw@.len() && 0 <= j < raw@[a]@.len() implies regex_compiles(
                (#[trigger] raw@[a]@[j]).0@,
            ) by {
                assert(given(a).len() == raw@[a]@.len());
                assert(regex_compiles(alias_data(ids@[a])[j].0));
            }
        }
        if r is Ok {
            assert forall|id: CharacterId, j: int| 0 <= j < alias_data(id).len() implies regex_compiles(
                #[trigger] alias_data(id)[j].0,
            ) by {
                let a = id.spec_index() as int;
                assert(ids@[a] == id);
                assert(given(a).len() == raw@[a]@.len());
                assert(regex_compiles(raw@[a]@[j].0@));
            }
            let t = r->Ok_0;
            assert forall|id: CharacterId| #[trigger] t.bindings_of(id) == alias_data(id) by {
                let a = id.spec_index() as int;
                assert(ids@[a] == id);
            }
        }
    }
    r
}

} // verus!
