use vstd::prelude::*;

verus! {

/// A section of the site. Each board is addressed by a short path segment.
#[derive(Debug, Clone, Copy, PartialEq, Eq, Structural)]
pub enum Board {
    Soy,
    QuestionsAndAnswers,
    Raid,
    ShartyStation,
    Requests,
    Soy2,
    TheDollHouse,
    Minecraft,
    International,
    Politics,
    Anime,
    AnimalsAndNature,
    AllSports,
    MediaAndInterests,
    R9K,
    Technology,
    VidyaGames,
    Paranormal,
    Cacaborea,
    Cado,
    Gigachads,
    Jaks,
    Sneed,
    Sude,
    Nonsense,
    Meta,
    News,
    Archive,
}

/// The path segment of a board, as used verbatim in the site's URLs.
pub open spec fn board_segment(b: Board) -> Seq<char> {
    match b {
        Board::Soy => "soy"@,
        Board::QuestionsAndAnswers => "qa"@,
        Board::Raid => "raid"@,
        Board::ShartyStation => "ss"@,
        Board::Requests => "r"@,
        Board::Soy2 => "soy2"@,
        Board::TheDollHouse => "tdh"@,
        Board::Minecraft => "craft"@,
        Board::International => "int"@,
        Board::Politics => "pol"@,
        Board::Anime => "a"@,
        Board::AnimalsAndNature => "an"@,
        Board::AllSports => "asp"@,
        Board::MediaAndInterests => "mtv"@,
        Board::R9K => "r9k"@,
        Board::Technology => "tech"@,
        Board::VidyaGames => "v"@,
        Board::Paranormal => "x"@,
        Board::Cacaborea => "caca"@,
        Board::Cado => "cado"@,
        Board::Gigachads => "giga5"@,
        Board::Jaks => "jak"@,
        Board::Sneed => "sneed"@,
        Board::Sude => "sude"@,
        Board::Nonsense => "yyyyyyy"@,
        Board::Meta => "q"@,
        Board::News => "news"@,
        Board::Archive => "chive"@,
    }
}

/// Every board maps to a path segment, and no segment is empty.
pub proof fn lemma_board_segment_non_empty(b: Board)
    ensures
        board_segment(b).len() > 0,
{
    match b {
        Board::Soy => {
            reveal_strlit("soy");
        },
        Board::QuestionsAndAnswers => {
            reveal_strlit("qa");
        },
        Board::Raid => {
            reveal_strlit("raid");
        },
        Board::ShartyStation => {
            reveal_strlit("ss");
        },
        Board::Requests => {
            reveal_strlit("r");
        },
        Board::Soy2 => {
            reveal_strlit("soy2");
        },
        Board::TheDollHouse => {
            reveal_strlit("tdh");
        },
        Board::Minecraft => {
            reveal_strlit("craft");
        },
        Board::International => {
            reveal_strlit("int");
        },
        Board::Politics => {
            reveal_strlit("pol");
        },
        Board::Anime => {
            reveal_strlit("a");
        },
        Board::AnimalsAndNature => {
            reveal_strlit("an");
        },
        Board::AllSports => {
            reveal_strlit("asp");
        },
        Board::MediaAndInterests => {
            reveal_strlit("mtv");
        },
        Board::R9K => {
            reveal_strlit("r9k");
        },
        Board::Technology => {
            reveal_strlit("tech");
        },
        Board::VidyaGames => {
            reveal_strlit("v");
        },
        Board::Paranormal => {
            reveal_strlit("x");
        },
        Board::Cacaborea => {
            reveal_strlit("caca");
        },
        Board::Cado => {
            reveal_strlit("cado");
        },
        Board::Gigachads => {
            reveal_strlit("giga5");
        },
        Board::Jaks => {
            reveal_strlit("jak");
        },
        Board::Sneed => {
            reveal_strlit("sneed");
        },
        Board::Sude => {
            reveal_strlit("sude");
        },
        Board::Nonsense => {
            reveal_strlit("yyyyyyy");
        },
        Board::Meta => {
            reveal_strlit("q");
        },
        Board::News => {
            reveal_strlit("news");
        },
        Board::Archive => {
            reveal_strlit("chive");
        },
    }
}

impl Board {
    /// The path segment of this board.
    pub fn as_str(&self) -> (r: &'static str)
        ensures
            r@ == board_segment(*self),
            r@.len() > 0,
    {
        proof {
            lemma_board_segment_non_empty(*self);
        }
        match self {
            Board::Soy => "soy",
            Board::QuestionsAndAnswers => "qa",
            Board::Raid => "raid",
            Board::ShartyStation => "ss",
            Board::Requests => "r",
            Board::Soy2 => "soy2",
            Board::TheDollHouse => "tdh",
            Board::Minecraft => "craft",
            Board::International => "int",
            Board::Politics => "pol",
            Board::Anime => "a",
            Board::AnimalsAndNature => "an",
            Board::AllSports => "asp",
            Board::MediaAndInterests => "mtv",
            Board::R9K => "r9k",
            Board::Technology => "tech",
            Board::VidyaGames => "v",
            Board::Paranormal => "x",
            Board::Cacaborea => "caca",
            Board::Cado => "cado",
            Board::Gigachads => "giga5",
            Board::Jaks => "jak",
            Board::Sneed => "sneed",
            Board::Sude => "sude",
            Board::Nonsense => "yyyyyyy",
            Board::Meta => "q",
            Board::News => "news",
            Board::Archive => "chive",
        }
    }

    /// The path segment of this board as an owned string.
    pub fn to_string(&self) -> (r: String)
        ensures
            r@ == board_segment(*self),
            r@.len() > 0,
    {
        String::from_str(self.as_str())
    }
}

} // verus!
