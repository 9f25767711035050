//! The melody registry: a fixed table of departure melodies, each with a
//! symbolic id of the form `LINE-Station`, looked up case-insensitively.

use vstd::prelude::*;

use crate::strutil::{lower_seq, str_eq_lower};

verus! {

/// One predefined melody: its id, line and station names, the melody's own
/// name, and the audio file name under the download base URL.
pub struct MelodyInfo {
    /// The melody id (e.g. "JY-Tokyo"), unique in the table.
    pub id: String,
    /// The line code (e.g. "JY").
    pub line: String,
    /// The line name in English.
    pub line_name: String,
    /// The station name in English.
    pub station: String,
    /// The station name in Japanese.
    pub station_jp: String,
    /// The melody name.
    pub melody_name: String,
    /// The audio file name, without the base URL.
    pub filename: String,
}

/// The mathematical image of a `MelodyInfo`: each field as a character
/// sequence.
pub struct MelodyView {
    pub id: Seq<char>,
    pub line: Seq<char>,
    pub line_name: Seq<char>,
    pub station: Seq<char>,
    pub station_jp: Seq<char>,
    pub melody_name: Seq<char>,
    pub filename: Seq<char>,
}

impl View for MelodyInfo {
    type V = MelodyView;

    open spec fn view(&self) -> MelodyView {
        MelodyView {
            id: self.id@,
            line: self.line@,
            line_name: self.line_name@,
            station: self.station@,
            station_jp: self.station_jp@,
            melody_name: self.melody_name@,
            filename: self.filename@,
        }
    }
}

/// The views of a sequence of melody records.
pub open spec fn views_of(v: Seq<MelodyInfo>) -> Seq<MelodyView> {
    v.map_values(|m: MelodyInfo| m@)
}

/// Base URL under which every melody's audio file lives.
pub open spec fn base_url() -> Seq<char> {
    "https://yamanot.es/audio/"@
}

impl MelodyInfo {
    /// The full URL for downloading this melody: the base URL followed by
    /// the record's file name.
    pub fn url(&self) -> (r: String)
        ensures
            r@ == base_url() + self.filename@,
    {
        let mut s = String::from_str("https://yamanot.es/audio/");
        s.append(self.filename.as_str());
        s
    }
}

/// The Yamanote line (JY) melodies of the table.
pub open spec fn yamanote_melodies() -> Seq<MelodyView> {
    seq![
        MelodyView {
            id: "JY-Tokyo"@,
            line: "JY"@,
            line_name: "Yamanote"@,
            station: "Tokyo"@,
            station_jp: "東京"@,
            melody_name: "SH-3"@,
            filename: "sh3.mp3"@,
        },
        MelodyView {
            id: "JY-Kanda"@,
            line: "JY"@,
            line_name: "Yamanote"@,
            station: "Kanda"@,
            station_jp: "神田"@,
            melody_name: "Seseragi"@,
            filename: "seseragi.mp3"@,
        },
        MelodyView {
            id: "JY-Akihabara"@,
            line: "JY"@,
            line_name: "Yamanote"@,
            station: "Akihabara"@,
            station_jp: "秋葉原"@,
            melody_name: "Ogawa V1"@,
            filename: "ogawav1.mp3"@,
        },
        MelodyView {
            id: "JY-Okachimachi"@,
            line: "JY"@,
            line_name: "Yamanote"@,
            station: "Okachimachi"@,
            station_jp: "御徒町"@,
            melody_name: "Haru Tremolo"@,
            filename: "harutrem.mp3"@,
        },
        MelodyView {
            id: "JY-Ueno"@,
            line: "JY"@,
            line_name: "Yamanote"@,
            station: "Ueno"@,
            station_jp: "上野"@,
            melody_name: "Bell B"@,
            filename: "bellb.mp3"@,
        },
        MelodyView {
            id: "JY-Uguisudani"@,
            line: "JY"@,
            line_name: "Yamanote"@,
            station: "Uguisudani"@,
            station_jp: "鶯谷"@,
            melody_name: "Haru Tremolo"@,
            filename: "harutrem.mp3"@,
        },
        MelodyView {
            id: "JY-Nippori"@,
            line: "JY"@,
            line_name: "Yamanote"@,
            station: "Nippori"@,
            station_jp: "日暮里"@,
            melody_name: "Haru Tremolo"@,
            filename: "harutrem.mp3"@,
        },
        MelodyView {
            id: "JY-NishiNippori"@,
            line: "JY"@,
            line_name: "Yamanote"@,
            station: "Nishi-Nippori"@,
            station_jp: "西日暮里"@,
            melody_name: "Haru Tremolo"@,
            filename: "harutrem.mp3"@,
        },
        MelodyView {
            id: "JY-Tabata"@,
            line: "JY"@,
            line_name: "Yamanote"@,
            station: "Tabata"@,
            station_jp: "田端"@,
            melody_name: "Haru Tremolo"@,
            filename: "harutrem.mp3"@,
        },
        MelodyView {
            id: "JY-Komagome"@,
            line: "JY"@,
            line_name: "Yamanote"@,
            station: "Komagome"@,
            station_jp: "駒込"@,
            melody_name: "Sakura B"@,
            filename: "sakurab.mp3"@,
        },
        MelodyView {
            id: "JY-Sugamo"@,
            line: "JY"@,
            line_name: "Yamanote"@,
            station: "Sugamo"@,
            station_jp: "巣鴨"@,
            melody_name: "Haru"@,
            filename: "haru.mp3"@,
        },
        MelodyView {
            id: "JY-Otsuka"@,
            line: "JY"@,
            line_name: "Yamanote"@,
            station: "Otsuka"@,
            station_jp: "大塚"@,
            melody_name: "Haru"@,
            filename: "haru.mp3"@,
        },
        MelodyView {
            id: "JY-Ikebukuro"@,
            line: "JY"@,
            line_name: "Yamanote"@,
            station: "Ikebukuro"@,
            station_jp: "池袋"@,
            melody_name: "Melody"@,
            filename: "melody.mp3"@,
        },
        MelodyView {
            id: "JY-Mejiro"@,
            line: "JY"@,
            line_name: "Yamanote"@,
            station: "Mejiro"@,
            station_jp: "目白"@,
            melody_name: "Haru"@,
            filename: "haru.mp3"@,
        },
        MelodyView {
            id: "JY-Takadanobaba"@,
            line: "JY"@,
            line_name: "Yamanote"@,
            station: "Takadanobaba"@,
            station_jp: "高田馬場"@,
            melody_name: "Astro Boy"@,
            filename: "astrob.mp3"@,
        },
        MelodyView {
            id: "JY-ShinOkubo"@,
            line: "JY"@,
            line_name: "Yamanote"@,
            station: "Shin-Okubo"@,
            station_jp: "新大久保"@,
            melody_name: "Bell B"@,
            filename: "bellb.mp3"@,
        },
        MelodyView {
            id: "JY-Shinjuku"@,
            line: "JY"@,
            line_name: "Yamanote"@,
            station: "Shinjuku"@,
            station_jp: "新宿"@,
            melody_name: "Aratana"@,
            filename: "aratana.mp3"@,
        },
        MelodyView {
            id: "JY-Yoyogi"@,
            line: "JY"@,
            line_name: "Yamanote"@,
            station: "Yoyogi"@,
            station_jp: "代々木"@,
            melody_name: "Haru"@,
            filename: "haru.mp3"@,
        },
        MelodyView {
            id: "JY-Harajuku"@,
            line: "JY"@,
            line_name: "Yamanote"@,
            station: "Harajuku"@,
            station_jp: "原宿"@,
            melody_name: "Harajuku A"@,
            filename: "harajukua.mp3"@,
        },
        MelodyView {
            id: "JY-Shibuya"@,
            line: "JY"@,
            line_name: "Yamanote"@,
            station: "Shibuya"@,
            station_jp: "渋谷"@,
            melody_name: "Hana no Horokobi"@,
            filename: "hananohorokobi.mp3"@,
        },
        MelodyView {
            id: "JY-Ebisu"@,
            line: "JY"@,
            line_name: "Yamanote"@,
            station: "Ebisu"@,
            station_jp: "恵比寿"@,
            melody_name: "Third Man"@,
            filename: "thirdman.mp3"@,
        },
        MelodyView {
            id: "JY-Meguro"@,
            line: "JY"@,
            line_name: "Yamanote"@,
            station: "Meguro"@,
            station_jp: "目黒"@,
            melody_name: "Water Crown"@,
            filename: "watercrown.mp3"@,
        },
        MelodyView {
            id: "JY-Gotanda"@,
            line: "JY"@,
            line_name: "Yamanote"@,
            station: "Gotanda"@,
            station_jp: "五反田"@,
            melody_name: "SH-23"@,
            filename: "sh23.mp3"@,
        },
        MelodyView {
            id: "JY-Osaki"@,
            line: "JY"@,
            line_name: "Yamanote"@,
            station: "Osaki"@,
            station_jp: "大崎"@,
            melody_name: "Umi no Eki"@,
            filename: "uminoeki.mp3"@,
        },
        MelodyView {
            id: "JY-Shinagawa"@,
            line: "JY"@,
            line_name: "Yamanote"@,
            station: "Shinagawa"@,
            station_jp: "品川"@,
            melody_name: "Seseragi"@,
            filename: "seseragi.mp3"@,
        },
        MelodyView {
            id: "JY-TakanawaGateway"@,
            line: "JY"@,
            line_name: "Yamanote"@,
            station: "Takanawa Gateway"@,
            station_jp: "高輪ゲートウェイ"@,
            melody_name: "Sweet Call"@,
            filename: "sweetcall.mp3"@,
        },
        MelodyView {
            id: "JY-Tamachi"@,
            line: "JY"@,
            line_name: "Yamanote"@,
            station: "Tamachi"@,
            station_jp: "田町"@,
            melody_name: "Seseragi"@,
            filename: "seseragi.mp3"@,
        },
        MelodyView {
            id: "JY-Hamamatsucho"@,
            line: "JY"@,
            line_name: "Yamanote"@,
            station: "Hamamatsucho"@,
            station_jp: "浜松町"@,
            melody_name: "Seseragi"@,
            filename: "seseragi.mp3"@,
        },
        MelodyView {
            id: "JY-Shimbashi"@,
            line: "JY"@,
            line_name: "Yamanote"@,
            station: "Shimbashi"@,
            station_jp: "新橋"@,
            melody_name: "Gota del Vient"@,
            filename: "gotadelvient.mp3"@,
        },
        MelodyView {
            id: "JY-Yurakucho"@,
            line: "JY"@,
            line_name: "Yamanote"@,
            station: "Yurakucho"@,
            station_jp: "有楽町"@,
            melody_name: "SH-21"@,
            filename: "sh21.mp3"@,
        },
    ]
}

/// The Keihin-Tohoku line (JK) melodies of the table.
pub open spec fn keihin_tohoku_melodies() -> Seq<MelodyView> {
    seq![
        MelodyView {
            id: "JK-Shinagawa"@,
            line: "JK"@,
            line_name: "Keihin-Tohoku"@,
            station: "Shinagawa"@,
            station_jp: "品川"@,
            melody_name: "Chime"@,
            filename: "chime.mp3"@,
        },
        MelodyView {
            id: "JK-TakanawaGateway"@,
            line: "JK"@,
            line_name: "Keihin-Tohoku"@,
            station: "Takanawa Gateway"@,
            station_jp: "高輪ゲートウェイ"@,
            melody_name: "Flower Shop"@,
            filename: "flowershop.mp3"@,
        },
        MelodyView {
            id: "JK-Tamachi"@,
            line: "JK"@,
            line_name: "Keihin-Tohoku"@,
            station: "Tamachi"@,
            station_jp: "田町"@,
            melody_name: "Spring Box"@,
            filename: "springbox.mp3"@,
        },
        MelodyView {
            id: "JK-Hamamatsucho"@,
            line: "JK"@,
            line_name: "Keihin-Tohoku"@,
            station: "Hamamatsucho"@,
            station_jp: "浜松町"@,
            melody_name: "Spring Box"@,
            filename: "springbox.mp3"@,
        },
        MelodyView {
            id: "JK-Shimbashi"@,
            line: "JK"@,
            line_name: "Keihin-Tohoku"@,
            station: "Shimbashi"@,
            station_jp: "新橋"@,
            melody_name: "SH-1"@,
            filename: "sh1.mp3"@,
        },
        MelodyView {
            id: "JK-Yurakucho"@,
            line: "JK"@,
            line_name: "Keihin-Tohoku"@,
            station: "Yurakucho"@,
            station_jp: "有楽町"@,
            melody_name: "SH-5"@,
            filename: "sh5.mp3"@,
        },
        MelodyView {
            id: "JK-Tokyo"@,
            line: "JK"@,
            line_name: "Keihin-Tohoku"@,
            station: "Tokyo"@,
            station_jp: "東京"@,
            melody_name: "SH-5"@,
            filename: "sh5.mp3"@,
        },
        MelodyView {
            id: "JK-Kanda"@,
            line: "JK"@,
            line_name: "Keihin-Tohoku"@,
            station: "Kanda"@,
            station_jp: "神田"@,
            melody_name: "Haru New"@,
            filename: "harunew.mp3"@,
        },
        MelodyView {
            id: "JK-Akihabara"@,
            line: "JK"@,
            line_name: "Keihin-Tohoku"@,
            station: "Akihabara"@,
            station_jp: "秋葉原"@,
            melody_name: "Beyond the Line"@,
            filename: "beyondtheline.mp3"@,
        },
        MelodyView {
            id: "JK-Okachimachi"@,
            line: "JK"@,
            line_name: "Keihin-Tohoku"@,
            station: "Okachimachi"@,
            station_jp: "御徒町"@,
            melody_name: "Haru New"@,
            filename: "harunew.mp3"@,
        },
        MelodyView {
            id: "JK-Ueno"@,
            line: "JK"@,
            line_name: "Keihin-Tohoku"@,
            station: "Ueno"@,
            station_jp: "上野"@,
            melody_name: "Bell A"@,
            filename: "bella.mp3"@,
        },
        MelodyView {
            id: "JK-Uguisudani"@,
            line: "JK"@,
            line_name: "Keihin-Tohoku"@,
            station: "Uguisudani"@,
            station_jp: "鶯谷"@,
            melody_name: "Haru New"@,
            filename: "harunew.mp3"@,
        },
        MelodyView {
            id: "JK-Nippori"@,
            line: "JK"@,
            line_name: "Keihin-Tohoku"@,
            station: "Nippori"@,
            station_jp: "日暮里"@,
            melody_name: "Haru New"@,
            filename: "harunew.mp3"@,
        },
        MelodyView {
            id: "JK-NishiNippori"@,
            line: "JK"@,
            line_name: "Keihin-Tohoku"@,
            station: "Nishi-Nippori"@,
            station_jp: "西日暮里"@,
            melody_name: "Haru New"@,
            filename: "harunew.mp3"@,
        },
        MelodyView {
            id: "JK-Tabata"@,
            line: "JK"@,
            line_name: "Keihin-Tohoku"@,
            station: "Tabata"@,
            station_jp: "田端"@,
            melody_name: "Haru New"@,
            filename: "harunew.mp3"@,
        },
    ]
}

/// The Sobu line (JB) melodies of the table.
pub open spec fn sobu_melodies() -> Seq<MelodyView> {
    seq![
        MelodyView {
            id: "JB-Ichigaya"@,
            line: "JB"@,
            line_name: "Sobu"@,
            station: "Ichigaya"@,
            station_jp: "市ケ谷"@,
            melody_name: "Haru New"@,
            filename: "harunew.mp3"@,
        },
        MelodyView {
            id: "JB-Iidabashi"@,
            line: "JB"@,
            line_name: "Sobu"@,
            station: "Iidabashi"@,
            station_jp: "飯田橋"@,
            melody_name: "SF-3"@,
            filename: "sf3.mp3"@,
        },
        MelodyView {
            id: "JB-Suidobashi"@,
            line: "JB"@,
            line_name: "Sobu"@,
            station: "Suidobashi"@,
            station_jp: "水道橋"@,
            melody_name: "Fighting Spirit A"@,
            filename: "fightingspirita.mp3"@,
        },
        MelodyView {
            id: "JB-Ochanomizu"@,
            line: "JB"@,
            line_name: "Sobu"@,
            station: "Ochanomizu"@,
            station_jp: "御茶ノ水"@,
            melody_name: "SH-6"@,
            filename: "sh6.mp3"@,
        },
        MelodyView {
            id: "JB-Akihabara"@,
            line: "JB"@,
            line_name: "Sobu"@,
            station: "Akihabara"@,
            station_jp: "秋葉原"@,
            melody_name: "SF-3"@,
            filename: "sf3.mp3"@,
        },
    ]
}

/// The Saikyo line (JA) melodies of the table.
pub open spec fn saikyo_melodies() -> Seq<MelodyView> {
    seq![
        MelodyView {
            id: "JA-Ikebukuro"@,
            line: "JA"@,
            line_name: "Saikyo"@,
            station: "Ikebukuro"@,
            station_jp: "池袋"@,
            melody_name: "Mellow Time"@,
            filename: "mellowtime.mp3"@,
        },
        MelodyView {
            id: "JA-Shinjuku"@,
            line: "JA"@,
            line_name: "Saikyo"@,
            station: "Shinjuku"@,
            station_jp: "新宿"@,
            melody_name: "Mellow Time"@,
            filename: "mellowtime.mp3"@,
        },
        MelodyView {
            id: "JA-Shibuya"@,
            line: "JA"@,
            line_name: "Saikyo"@,
            station: "Shibuya"@,
            station_jp: "渋谷"@,
            melody_name: "SH-1"@,
            filename: "sh1.mp3"@,
        },
        MelodyView {
            id: "JA-Ebisu"@,
            line: "JA"@,
            line_name: "Saikyo"@,
            station: "Ebisu"@,
            station_jp: "恵比寿"@,
            melody_name: "Third Man"@,
            filename: "thirdman.mp3"@,
        },
        MelodyView {
            id: "JA-Osaki"@,
            line: "JA"@,
            line_name: "Saikyo"@,
            station: "Osaki"@,
            station_jp: "大崎"@,
            melody_name: "Twinkling Skyline"@,
            filename: "twinklingskyline.mp3"@,
        },
    ]
}

/// The Ueno-Tokyo line (JU) melodies of the table.
pub open spec fn ueno_tokyo_melodies() -> Seq<MelodyView> {
    seq![
        MelodyView {
            id: "JU-Shinagawa"@,
            line: "JU"@,
            line_name: "Ueno-Tokyo"@,
            station: "Shinagawa"@,
            station_jp: "品川"@,
            melody_name: "Railroad Song B"@,
            filename: "railroadsongb.mp3"@,
        },
        MelodyView {
            id: "JU-Shimbashi"@,
            line: "JU"@,
            line_name: "Ueno-Tokyo"@,
            station: "Shimbashi"@,
            station_jp: "新橋"@,
            melody_name: "Sunlight"@,
            filename: "sunlight.mp3"@,
        },
        MelodyView {
            id: "JU-Tokyo"@,
            line: "JU"@,
            line_name: "Ueno-Tokyo"@,
            station: "Tokyo"@,
            station_jp: "東京"@,
            melody_name: "Bell A"@,
            filename: "bella.mp3"@,
        },
        MelodyView {
            id: "JU-Ueno"@,
            line: "JU"@,
            line_name: "Ueno-Tokyo"@,
            station: "Ueno"@,
            station_jp: "上野"@,
            melody_name: "Beyond the Line"@,
            filename: "beyondtheline.mp3"@,
        },
    ]
}

/// The Narita Express line (NEX) melodies of the table.
pub open spec fn narita_express_melodies() -> Seq<MelodyView> {
    seq![
        MelodyView {
            id: "NEX-Ikebukuro"@,
            line: "NEX"@,
            line_name: "Narita Express"@,
            station: "Ikebukuro"@,
            station_jp: "池袋"@,
            melody_name: "Haru"@,
            filename: "haru.mp3"@,
        },
        MelodyView {
            id: "NEX-Shinjuku"@,
            line: "NEX"@,
            line_name: "Narita Express"@,
            station: "Shinjuku"@,
            station_jp: "新宿"@,
            melody_name: "Beautiful Hill"@,
            filename: "beautifulhill.mp3"@,
        },
        MelodyView {
            id: "NEX-Shibuya"@,
            line: "NEX"@,
            line_name: "Narita Express"@,
            station: "Shibuya"@,
            station_jp: "渋谷"@,
            melody_name: "SH-1"@,
            filename: "sh1.mp3"@,
        },
        MelodyView {
            id: "NEX-Shinagawa"@,
            line: "NEX"@,
            line_name: "Narita Express"@,
            station: "Shinagawa"@,
            station_jp: "品川"@,
            melody_name: "Seseragi"@,
            filename: "seseragi.mp3"@,
        },
    ]
}

/// The whole melody table, in line order.
pub open spec fn melody_table() -> Seq<MelodyView> {
    yamanote_melodies() + keihin_tohoku_melodies() + sobu_melodies() + saikyo_melodies() + ueno_tokyo_melodies() + narita_express_melodies()
}

fn push_melody(
    v: &mut Vec<MelodyInfo>,
    id: &str,
    line: &str,
    line_name: &str,
    station: &str,
    station_jp: &str,
    melody_name: &str,
    filename: &str,
)
    ensures
        views_of(final(v)@) == views_of(old(v)@).push(
            (MelodyView {
                id: id@,
                line: line@,
                line_name: line_name@,
                station: station@,
                station_jp: station_jp@,
                melody_name: melody_name@,
                filename: filename@,
            }),
        ),
{
    let m = MelodyInfo {
        id: String::from_str(id),
        line: String::from_str(line),
        line_name: String::from_str(line_name),
        station: String::from_str(station),
        station_jp: String::from_str(station_jp),
        melody_name: String::from_str(melody_name),
        filename: String::from_str(filename),
    };
    v.push(m);
    proof {
        assert(views_of(v@) =~= views_of(old(v)@).push(
            MelodyView {
                id: id@,
                line: line@,
                line_name: line_name@,
                station: station@,
                station_jp: station_jp@,
                melody_name: melody_name@,
                filename: filename@,
            },
        ));
    }
}

fn yamanote_entries(v: &mut Vec<MelodyInfo>)
    ensures
        views_of(final(v)@) == views_of(old(v)@) + yamanote_melodies(),
{
    push_melody(v, "JY-Tokyo", "JY", "Yamanote", "Tokyo", "東京", "SH-3", "sh3.mp3");
    push_melody(v, "JY-Kanda", "JY", "Yamanote", "Kanda", "神田", "Seseragi", "seseragi.mp3");
    push_melody(v, "JY-Akihabara", "JY", "Yamanote", "Akihabara", "秋葉原", "Ogawa V1", "ogawav1.mp3");
    push_melody(v, "JY-Okachimachi", "JY", "Yamanote", "Okachimachi", "御徒町", "Haru Tremolo", "harutrem.mp3");
    push_melody(v, "JY-Ueno", "JY", "Yamanote", "Ueno", "上野", "Bell B", "bellb.mp3");
    push_melody(v, "JY-Uguisudani", "JY", "Yamanote", "Uguisudani", "鶯谷", "Haru Tremolo", "harutrem.mp3");
    push_melody(v, "JY-Nippori", "JY", "Yamanote", "Nippori", "日暮里", "Haru Tremolo", "harutrem.mp3");
    push_melody(v, "JY-NishiNippori", "JY", "Yamanote", "Nishi-Nippori", "西日暮里", "Haru Tremolo", "harutrem.mp3");
    push_melody(v, "JY-Tabata", "JY", "Yamanote", "Tabata", "田端", "Haru Tremolo", "harutrem.mp3");
    push_melody(v, "JY-Komagome", "JY", "Yamanote", "Komagome", "駒込", "Sakura B", "sakurab.mp3");
    push_melody(v, "JY-Sugamo", "JY", "Yamanote", "Sugamo", "巣鴨", "Haru", "haru.mp3");
    push_melody(v, "JY-Otsuka", "JY", "Yamanote", "Otsuka", "大塚", "Haru", "haru.mp3");
    push_melody(v, "JY-Ikebukuro", "JY", "Yamanote", "Ikebukuro", "池袋", "Melody", "melody.mp3");
    push_melody(v, "JY-Mejiro", "JY", "Yamanote", "Mejiro", "目白", "Haru", "haru.mp3");
    push_melody(v, "JY-Takadanobaba", "JY", "Yamanote", "Takadanobaba", "高田馬場", "Astro Boy", "astrob.mp3");
    push_melody(v, "JY-ShinOkubo", "JY", "Yamanote", "Shin-Okubo", "新大久保", "Bell B", "bellb.mp3");
    push_melody(v, "JY-Shinjuku", "JY", "Yamanote", "Shinjuku", "新宿", "Aratana", "aratana.mp3");
    push_melody(v, "JY-Yoyogi", "JY", "Yamanote", "Yoyogi", "代々木", "Haru", "haru.mp3");
    push_melody(v, "JY-Harajuku", "JY", "Yamanote", "Harajuku", "原宿", "Harajuku A", "harajukua.mp3");
    push_melody(v, "JY-Shibuya", "JY", "Yamanote", "Shibuya", "渋谷", "Hana no Horokobi", "hananohorokobi.mp3");
    push_melody(v, "JY-Ebisu", "JY", "Yamanote", "Ebisu", "恵比寿", "Third Man", "thirdman.mp3");
    push_melody(v, "JY-Meguro", "JY", "Yamanote", "Meguro", "目黒", "Water Crown", "watercrown.mp3");
    push_melody(v, "JY-Gotanda", "JY", "Yamanote", "Gotanda", "五反田", "SH-23", "sh23.mp3");
    push_melody(v, "JY-Osaki", "JY", "Yamanote", "Osaki", "大崎", "Umi no Eki", "uminoeki.mp3");
    push_melody(v, "JY-Shinagawa", "JY", "Yamanote", "Shinagawa", "品川", "Seseragi", "seseragi.mp3");
    push_melody(v, "JY-TakanawaGateway", "JY", "Yamanote", "Takanawa Gateway", "高輪ゲートウェイ", "Sweet Call", "sweetcall.mp3");
    push_melody(v, "JY-Tamachi", "JY", "Yamanote", "Tamachi", "田町", "Seseragi", "seseragi.mp3");
    push_melody(v, "JY-Hamamatsucho", "JY", "Yamanote", "Hamamatsucho", "浜松町", "Seseragi", "seseragi.mp3");
    push_melody(v, "JY-Shimbashi", "JY", "Yamanote", "Shimbashi", "新橋", "Gota del Vient", "gotadelvient.mp3");
    push_melody(v, "JY-Yurakucho", "JY", "Yamanote", "Yurakucho", "有楽町", "SH-21", "sh21.mp3");
    proof {
        assert(views_of(v@) =~= views_of(old(v)@) + yamanote_melodies());
    }
}

fn keihin_tohoku_entries(v: &mut Vec<MelodyInfo>)
    ensures
        views_of(final(v)@) == views_of(old(v)@) + keihin_tohoku_melodies(),
{
    push_melody(v, "JK-Shinagawa", "JK", "Keihin-Tohoku", "Shinagawa", "品川", "Chime", "chime.mp3");
    push_melody(v, "JK-TakanawaGateway", "JK", "Keihin-Tohoku", "Takanawa Gateway", "高輪ゲートウェイ", "Flower Shop", "flowershop.mp3");
    push_melody(v, "JK-Tamachi", "JK", "Keihin-Tohoku", "Tamachi", "田町", "Spring Box", "springbox.mp3");
    push_melody(v, "JK-Hamamatsucho", "JK", "Keihin-Tohoku", "Hamamatsucho", "浜松町", "Spring Box", "springbox.mp3");
    push_melody(v, "JK-Shimbashi", "JK", "Keihin-Tohoku", "Shimbashi", "新橋", "SH-1", "sh1.mp3");
    push_melody(v, "JK-Yurakucho", "JK", "Keihin-Tohoku", "Yurakucho", "有楽町", "SH-5", "sh5.mp3");
    push_melody(v, "JK-Tokyo", "JK", "Keihin-Tohoku", "Tokyo", "東京", "SH-5", "sh5.mp3");
    push_melody(v, "JK-Kanda", "JK", "Keihin-Tohoku", "Kanda", "神田", "Haru New", "harunew.mp3");
    push_melody(v, "JK-Akihabara", "JK", "Keihin-Tohoku", "Akihabara", "秋葉原", "Beyond the Line", "beyondtheline.mp3");
    push_melody(v, "JK-Okachimachi", "JK", "Keihin-Tohoku", "Okachimachi", "御徒町", "Haru New", "harunew.mp3");
    push_melody(v, "JK-Ueno", "JK", "Keihin-Tohoku", "Ueno", "上野", "Bell A", "bella.mp3");
    push_melody(v, "JK-Uguisudani", "JK", "Keihin-Tohoku", "Uguisudani", "鶯谷", "Haru New", "harunew.mp3");
    push_melody(v, "JK-Nippori", "JK", "Keihin-Tohoku", "Nippori", "日暮里", "Haru New", "harunew.mp3");
    push_melody(v, "JK-NishiNippori", "JK", "Keihin-Tohoku", "Nishi-Nippori", "西日暮里", "Haru New", "harunew.mp3");
    push_melody(v, "JK-Tabata", "JK", "Keihin-Tohoku", "Tabata", "田端", "Haru New", "harunew.mp3");
    proof {
        assert(views_of(v@) =~= views_of(old(v)@) + keihin_tohoku_melodies());
    }
}

fn sobu_entries(v: &mut Vec<MelodyInfo>)
    ensures
        views_of(final(v)@) == views_of(old(v)@) + sobu_melodies(),
{
    push_melody(v, "JB-Ichigaya", "JB", "Sobu", "Ichigaya", "市ケ谷", "Haru New", "harunew.mp3");
    push_melody(v, "JB-Iidabashi", "JB", "Sobu", "Iidabashi", "飯田橋", "SF-3", "sf3.mp3");
    push_melody(v, "JB-Suidobashi", "JB", "Sobu", "Suidobashi", "水道橋", "Fighting Spirit A", "fightingspirita.mp3");
    push_melody(v, "JB-Ochanomizu", "JB", "Sobu", "Ochanomizu", "御茶ノ水", "SH-6", "sh6.mp3");
    push_melody(v, "JB-Akihabara", "JB", "Sobu", "Akihabara", "秋葉原", "SF-3", "sf3.mp3");
    proof {
        assert(views_of(v@) =~= views_of(old(v)@) + sobu_melodies());
    }
}

fn saikyo_entries(v: &mut Vec<MelodyInfo>)
    ensures
        views_of(final(v)@) == views_of(old(v)@) + saikyo_melodies(),
{
    push_melody(v, "JA-Ikebukuro", "JA", "Saikyo", "Ikebukuro", "池袋", "Mellow Time", "mellowtime.mp3");
    push_melody(v, "JA-Shinjuku", "JA", "Saikyo", "Shinjuku", "新宿", "Mellow Time", "mellowtime.mp3");
    push_melody(v, "JA-Shibuya", "JA", "Saikyo", "Shibuya", "渋谷", "SH-1", "sh1.mp3");
    push_melody(v, "JA-Ebisu", "JA", "Saikyo", "Ebisu", "恵比寿", "Third Man", "thirdman.mp3");
    push_melody(v, "JA-Osaki", "JA", "Saikyo", "Osaki", "大崎", "Twinkling Skyline", "twinklingskyline.mp3");
    proof {
        assert(views_of(v@) =~= views_of(old(v)@) + saikyo_melodies());
    }
}

fn ueno_tokyo_entries(v: &mut Vec<MelodyInfo>)
    ensures
        views_of(final(v)@) == views_of(old(v)@) + ueno_tokyo_melodies(),
{
    push_melody(v, "JU-Shinagawa", "JU", "Ueno-Tokyo", "Shinagawa", "品川", "Railroad Song B", "railroadsongb.mp3");
    push_melody(v, "JU-Shimbashi", "JU", "Ueno-Tokyo", "Shimbashi", "新橋", "Sunlight", "sunlight.mp3");
    push_melody(v, "JU-Tokyo", "JU", "Ueno-Tokyo", "Tokyo", "東京", "Bell A", "bella.mp3");
    push_melody(v, "JU-Ueno", "JU", "Ueno-Tokyo", "Ueno", "上野", "Beyond the Line", "beyondtheline.mp3");
    proof {
        assert(views_of(v@) =~= views_of(old(v)@) + ueno_tokyo_melodies());
    }
}

fn narita_express_entries(v: &mut Vec<MelodyInfo>)
    ensures
        views_of(final(v)@) == views_of(old(v)@) + narita_express_melodies(),
{
    push_melody(v, "NEX-Ikebukuro", "NEX", "Narita Express", "Ikebukuro", "池袋", "Haru", "haru.mp3");
    push_melody(v, "NEX-Shinjuku", "NEX", "Narita Express", "Shinjuku", "新宿", "Beautiful Hill", "beautifulhill.mp3");
    push_melody(v, "NEX-Shibuya", "NEX", "Narita Express", "Shibuya", "渋谷", "SH-1", "sh1.mp3");
    push_melody(v, "NEX-Shinagawa", "NEX", "Narita Express", "Shinagawa", "品川", "Seseragi", "seseragi.mp3");
    proof {
        assert(views_of(v@) =~= views_of(old(v)@) + narita_express_melodies());
    }
}

/// The registry of predefined melodies, looked up by id.
pub struct MelodyRegistry {
    melodies: Vec<MelodyInfo>,
}

impl View for MelodyRegistry {
    type V = Seq<MelodyView>;

    closed spec fn view(&self) -> Seq<MelodyView> {
        views_of(self.melodies@)
    }
}

/// The first entry whose id equals `id` up to lowercasing, if any.
pub open spec fn spec_lookup(entries: Seq<MelodyView>, id: Seq<char>) -> Option<MelodyView>
    decreases entries.len(),
{
    if entries.len() == 0 {
        None
    } else if lower_seq(entries[0].id) == lower_seq(id) {
        Some(entries[0])
    } else {
        spec_lookup(entries.skip(1), id)
    }
}

impl MelodyRegistry {
    /// Build the registry, holding the whole fixed melody table.
    pub fn new() -> (r: MelodyRegistry)
        ensures
            r@ == melody_table(),
    {
        let mut v: Vec<MelodyInfo> = Vec::new();

        yamanote_entries(&mut v);
        keihin_tohoku_entries(&mut v);
        sobu_entries(&mut v);
        saikyo_entries(&mut v);
        ueno_tokyo_entries(&mut v);
        narita_express_entries(&mut v);
        proof {
            assert(views_of(v@) =~= melody_table());
        }
        MelodyRegistry { melodies: v }
    }

    /// Look a melody up by id, case-insensitively: the first entry whose id
    /// equals `id` up to lowercasing, or nothing when no id matches.
    pub fn get(&self, id: &str) -> (r: Option<&MelodyInfo>)
        ensures
            match r {
                Some(m) => spec_lookup(self@, id@) == Some(m@),
                None => spec_lookup(self@, id@) is None,
            },
    {
        let n = self.melodies.len();
        let mut i: usize = 0;
        proof {
            assert(self@.skip(0) =~= self@);
        }
        while i < n
            invariant
                n == self.melodies@.len(),
                i <= n,
                spec_lookup(self@, id@) == spec_lookup(self@.skip(i as int), id@),
            decreases n - i,
        {
            proof {
                assert(self@.skip(i as int)[0] == self@[i as int]);
            }
            if str_eq_lower(self.melodies[i].id.as_str(), id) {
                return Some(&self.melodies[i]);
            }
            i += 1;
            proof {
                assert(self@.skip(i - 1).skip(1) =~= self@.skip(i as int));
            }
        }
        None
    }

    /// All melodies of the table, in order.
    pub fn all(&self) -> (r: &Vec<MelodyInfo>)
        ensures
            views_of(r@) == self@,
    {
        &self.melodies
    }
}

impl Default for MelodyRegistry {
    /// The default registry holds the whole table, as `new` does.
    fn default() -> (r: MelodyRegistry)
        ensures
            r@ == melody_table(),
    {
        MelodyRegistry::new()
    }
}

/// Lowercasing a character twice is the same as doing it once.
proof fn lemma_lower_char_idempotent(c: char)
    ensures
        crate::strutil::lower_char(crate::strutil::lower_char(c)) == crate::strutil::lower_char(
            c,
        ),
{
}

/// Lowercasing a sequence twice is the same as doing it once.
proof fn lemma_lower_seq_idempotent(s: Seq<char>)
    ensures
        lower_seq(lower_seq(s)) == lower_seq(s),
{
    assert forall|i: int| 0 <= i < s.len() implies lower_seq(lower_seq(s))[i] == lower_seq(s)[i] by {
        lemma_lower_char_idempotent(s[i]);
    }
    assert(lower_seq(lower_seq(s)) =~= lower_seq(s));
}

/// Lookup is case-insensitive: looking an id up gives the same entry as
/// looking its lowercase form up.
pub proof fn lemma_lookup_case_insensitive(entries: Seq<MelodyView>, id: Seq<char>)
    ensures
        spec_lookup(entries, id) == spec_lookup(entries, lower_seq(id)),
    decreases entries.len(),
{
    lemma_lower_seq_idempotent(id);
    if entries.len() > 0 {
        lemma_lookup_case_insensitive(entries.skip(1), id);
    }
}

} // verus!
