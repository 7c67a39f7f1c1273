//! The document tree of a package: rounds, themes, questions and their atoms.
//!
//! A tree is built once, by whoever reads the content document, and never
//! changed afterwards. Every repeatable group is an ordered sequence that may
//! be empty and is never missing.
//!
//! Each type has a model, its deep view, in which strings are sequences of
//! characters and vectors are sequences. Contracts speak of the models.

use vstd::prelude::*;

verus! {

/// The root of the document.
#[derive(Debug, PartialEq)]
pub struct Package {
    pub id: String,
    pub name: Option<String>,
    pub version: String,
    pub date: Option<String>,
    pub difficulty: Option<u8>,
    pub language: Option<String>,
    pub logo: Option<String>,
    pub publisher: Option<String>,
    pub restriciton: Option<String>,
    pub rounds: Rounds,
    pub tags: Option<Vec<String>>,
    pub info: Info,
}

/// The model of a [`Package`].
pub struct PackageModel {
    pub id: Seq<char>,
    pub name: Option<Seq<char>>,
    pub version: Seq<char>,
    pub date: Option<Seq<char>>,
    pub difficulty: Option<u8>,
    pub language: Option<Seq<char>>,
    pub logo: Option<Seq<char>>,
    pub publisher: Option<Seq<char>>,
    pub restriciton: Option<Seq<char>>,
    pub rounds: RoundsModel,
    pub tags: Option<Seq<Seq<char>>>,
    pub info: InfoModel,
}

impl DeepView for Package {
    type V = PackageModel;

    open spec fn deep_view(&self) -> PackageModel {
        PackageModel {
            id: self.id.deep_view(),
            name: self.name.deep_view(),
            version: self.version.deep_view(),
            date: self.date.deep_view(),
            difficulty: self.difficulty.deep_view(),
            language: self.language.deep_view(),
            logo: self.logo.deep_view(),
            publisher: self.publisher.deep_view(),
            restriciton: self.restriciton.deep_view(),
            rounds: self.rounds.deep_view(),
            tags: self.tags.deep_view(),
            info: self.info.deep_view(),
        }
    }
}

impl Clone for Package {
    fn clone(&self) -> (copy: Self)
        ensures
            copy.deep_view() == self.deep_view(),
    {
        let id = self.id.clone();
        let name = self.name.clone();
        let version = self.version.clone();
        let date = self.date.clone();
        let difficulty = self.difficulty.clone();
        let language = self.language.clone();
        let logo = self.logo.clone();
        let publisher = self.publisher.clone();
        let restriciton = self.restriciton.clone();
        let rounds = self.rounds.clone();
        let tags = self.tags.clone();
        let info = self.info.clone();
        Package {
            id,
            name,
            version,
            date,
            difficulty,
            language,
            logo,
            publisher,
            restriciton,
            rounds,
            tags,
            info,
        }
    }
}

/// Who wrote a part of the package, and from which sources.
#[derive(Debug, PartialEq)]
pub struct Info {
    pub comments: Option<String>,
    pub extension: Option<String>,
    pub authors: Authors,
    pub sources: Option<Vec<String>>,
}

/// The model of a [`Info`].
pub struct InfoModel {
    pub comments: Option<Seq<char>>,
    pub extension: Option<Seq<char>>,
    pub authors: AuthorsModel,
    pub sources: Option<Seq<Seq<char>>>,
}

impl DeepView for Info {
    type V = InfoModel;

    open spec fn deep_view(&self) -> InfoModel {
        InfoModel {
            comments: self.comments.deep_view(),
            extension: self.extension.deep_view(),
            authors: self.authors.deep_view(),
            sources: self.sources.deep_view(),
        }
    }
}

impl Clone for Info {
    fn clone(&self) -> (copy: Self)
        ensures
            copy.deep_view() == self.deep_view(),
    {
        let comments = self.comments.clone();
        let extension = self.extension.clone();
        let authors = self.authors.clone();
        let sources = self.sources.clone();
        Info { comments, extension, authors, sources }
    }
}

/// The authors of a part, in document order.
#[derive(Debug, PartialEq)]
pub struct Authors {
    pub authors: Vec<String>,
}

/// The model of a [`Authors`].
pub struct AuthorsModel {
    pub authors: Seq<Seq<char>>,
}

impl DeepView for Authors {
    type V = AuthorsModel;

    open spec fn deep_view(&self) -> AuthorsModel {
        AuthorsModel {
            authors: self.authors.deep_view(),
        }
    }
}

impl Clone for Authors {
    fn clone(&self) -> (copy: Self)
        ensures
            copy.deep_view() == self.deep_view(),
    {
        let authors = self.authors.clone();
        Authors { authors }
    }
}

/// The rounds of a package, in document order.
#[derive(Debug, PartialEq)]
pub struct Rounds {
    pub rounds: Vec<Round>,
}

/// The model of a [`Rounds`].
pub struct RoundsModel {
    pub rounds: Seq<RoundModel>,
}

impl DeepView for Rounds {
    type V = RoundsModel;

    open spec fn deep_view(&self) -> RoundsModel {
        RoundsModel {
            rounds: self.rounds.deep_view(),
        }
    }
}

impl Clone for Rounds {
    fn clone(&self) -> (copy: Self)
        ensures
            copy.deep_view() == self.deep_view(),
    {
        let rounds = self.rounds.clone();
        Rounds { rounds }
    }
}

/// One round of the game.
#[derive(Debug, PartialEq)]
pub struct Round {
    pub name: String,
    pub variant: Option<String>,
    pub info: Option<Info>,
    pub themes: Themes,
}

/// The model of a [`Round`].
pub struct RoundModel {
    pub name: Seq<char>,
    pub variant: Option<Seq<char>>,
    pub info: Option<InfoModel>,
    pub themes: ThemesModel,
}

impl DeepView for Round {
    type V = RoundModel;

    open spec fn deep_view(&self) -> RoundModel {
        RoundModel {
            name: self.name.deep_view(),
            variant: self.variant.deep_view(),
            info: self.info.deep_view(),
            themes: self.themes.deep_view(),
        }
    }
}

impl Clone for Round {
    fn clone(&self) -> (copy: Self)
        ensures
            copy.deep_view() == self.deep_view(),
    {
        let name = self.name.clone();
        let variant = self.variant.clone();
        let info = self.info.clone();
        let themes = self.themes.clone();
        Round { name, variant, info, themes }
    }
}

/// The themes of a round, in document order.
#[derive(Debug, PartialEq)]
pub struct Themes {
    pub themes: Vec<Theme>,
}

/// The model of a [`Themes`].
pub struct ThemesModel {
    pub themes: Seq<ThemeModel>,
}

impl DeepView for Themes {
    type V = ThemesModel;

    open spec fn deep_view(&self) -> ThemesModel {
        ThemesModel {
            themes: self.themes.deep_view(),
        }
    }
}

impl Clone for Themes {
    fn clone(&self) -> (copy: Self)
        ensures
            copy.deep_view() == self.deep_view(),
    {
        let themes = self.themes.clone();
        Themes { themes }
    }
}

/// One theme: a named column of questions.
#[derive(Debug, PartialEq)]
pub struct Theme {
    pub name: String,
    pub questions: Questions,
    pub info: Option<Info>,
}

/// The model of a [`Theme`].
pub struct ThemeModel {
    pub name: Seq<char>,
    pub questions: QuestionsModel,
    pub info: Option<InfoModel>,
}

impl DeepView for Theme {
    type V = ThemeModel;

    open spec fn deep_view(&self) -> ThemeModel {
        ThemeModel {
            name: self.name.deep_view(),
            questions: self.questions.deep_view(),
            info: self.info.deep_view(),
        }
    }
}

impl Clone for Theme {
    fn clone(&self) -> (copy: Self)
        ensures
            copy.deep_view() == self.deep_view(),
    {
        let name = self.name.clone();
        let questions = self.questions.clone();
        let info = self.info.clone();
        Theme { name, questions, info }
    }
}

/// The questions of a theme, in document order.
#[derive(Debug, PartialEq)]
pub struct Questions {
    pub questions: Vec<Question>,
}

/// The model of a [`Questions`].
pub struct QuestionsModel {
    pub questions: Seq<QuestionModel>,
}

impl DeepView for Questions {
    type V = QuestionsModel;

    open spec fn deep_view(&self) -> QuestionsModel {
        QuestionsModel {
            questions: self.questions.deep_view(),
        }
    }
}

impl Clone for Questions {
    fn clone(&self) -> (copy: Self)
        ensures
            copy.deep_view() == self.deep_view(),
    {
        let questions = self.questions.clone();
        Questions { questions }
    }
}

/// One question with its price, its scenario and its answers.
#[derive(Debug, PartialEq)]
pub struct Question {
    pub price: usize,
    pub scenario: Scenario,
    pub right: Right,
    pub wrong: Option<Wrong>,
    pub variant: Option<Variant>,
    pub info: Option<Info>,
}

/// The model of a [`Question`].
pub struct QuestionModel {
    pub price: usize,
    pub scenario: ScenarioModel,
    pub right: RightModel,
    pub wrong: Option<WrongModel>,
    pub variant: Option<VariantModel>,
    pub info: Option<InfoModel>,
}

impl DeepView for Question {
    type V = QuestionModel;

    open spec fn deep_view(&self) -> QuestionModel {
        QuestionModel {
            price: self.price.deep_view(),
            scenario: self.scenario.deep_view(),
            right: self.right.deep_view(),
            wrong: self.wrong.deep_view(),
            variant: self.variant.deep_view(),
            info: self.info.deep_view(),
        }
    }
}

impl Clone for Question {
    fn clone(&self) -> (copy: Self)
        ensures
            copy.deep_view() == self.deep_view(),
    {
        let price = self.price.clone();
        let scenario = self.scenario.clone();
        let right = self.right.clone();
        let wrong = self.wrong.clone();
        let variant = self.variant.clone();
        let info = self.info.clone();
        Question { price, scenario, right, wrong, variant, info }
    }
}

/// The kind of a question, carried as the document names it.
#[derive(Debug, PartialEq)]
pub struct Variant {
    pub name: String,
}

/// The model of a [`Variant`].
pub struct VariantModel {
    pub name: Seq<char>,
}

impl DeepView for Variant {
    type V = VariantModel;

    open spec fn deep_view(&self) -> VariantModel {
        VariantModel {
            name: self.name.deep_view(),
        }
    }
}

impl Clone for Variant {
    fn clone(&self) -> (copy: Self)
        ensures
            copy.deep_view() == self.deep_view(),
    {
        let name = self.name.clone();
        Variant { name }
    }
}

/// What is shown to ask a question, atom by atom.
#[derive(Debug, PartialEq)]
pub struct Scenario {
    pub atoms: Vec<Atom>,
}

/// The model of a [`Scenario`].
pub struct ScenarioModel {
    pub atoms: Seq<AtomModel>,
}

impl DeepView for Scenario {
    type V = ScenarioModel;

    open spec fn deep_view(&self) -> ScenarioModel {
        ScenarioModel {
            atoms: self.atoms.deep_view(),
        }
    }
}

impl Clone for Scenario {
    fn clone(&self) -> (copy: Self)
        ensures
            copy.deep_view() == self.deep_view(),
    {
        let atoms = self.atoms.clone();
        Scenario { atoms }
    }
}

/// The answers that count as right.
#[derive(Debug, PartialEq)]
pub struct Right {
    pub answers: Vec<Answer>,
}

/// The model of a [`Right`].
pub struct RightModel {
    pub answers: Seq<AnswerModel>,
}

impl DeepView for Right {
    type V = RightModel;

    open spec fn deep_view(&self) -> RightModel {
        RightModel {
            answers: self.answers.deep_view(),
        }
    }
}

impl Clone for Right {
    fn clone(&self) -> (copy: Self)
        ensures
            copy.deep_view() == self.deep_view(),
    {
        let answers = self.answers.clone();
        Right { answers }
    }
}

/// The answers that count as wrong.
#[derive(Debug, PartialEq)]
pub struct Wrong {
    pub answers: Vec<Answer>,
}

/// The model of a [`Wrong`].
pub struct WrongModel {
    pub answers: Seq<AnswerModel>,
}

impl DeepView for Wrong {
    type V = WrongModel;

    open spec fn deep_view(&self) -> WrongModel {
        WrongModel {
            answers: self.answers.deep_view(),
        }
    }
}

impl Clone for Wrong {
    fn clone(&self) -> (copy: Self)
        ensures
            copy.deep_view() == self.deep_view(),
    {
        let answers = self.answers.clone();
        Wrong { answers }
    }
}

/// One answer.
#[derive(Debug, PartialEq)]
pub struct Answer {
    pub body: Option<String>,
}

/// The model of a [`Answer`].
pub struct AnswerModel {
    pub body: Option<Seq<char>>,
}

impl DeepView for Answer {
    type V = AnswerModel;

    open spec fn deep_view(&self) -> AnswerModel {
        AnswerModel {
            body: self.body.deep_view(),
        }
    }
}

impl Clone for Answer {
    fn clone(&self) -> (copy: Self)
        ensures
            copy.deep_view() == self.deep_view(),
    {
        let body = self.body.clone();
        Answer { body }
    }
}

/// The smallest unit of a scenario: a text, or a reference to a media file.
///
/// `time` is the number of seconds the atom is shown for, held as the bit
/// pattern of an IEEE 754 double. Two atoms are equal only where these
/// patterns are: `0.0` and `-0.0` differ, and a NaN equals itself.
#[derive(Debug, PartialEq)]
pub struct Atom {
    pub time: Option<u64>,
    pub variant: Option<String>,
    pub body: Option<String>,
}

/// The model of a [`Atom`].
pub struct AtomModel {
    pub time: Option<u64>,
    pub variant: Option<Seq<char>>,
    pub body: Option<Seq<char>>,
}

impl DeepView for Atom {
    type V = AtomModel;

    open spec fn deep_view(&self) -> AtomModel {
        AtomModel {
            time: self.time.deep_view(),
            variant: self.variant.deep_view(),
            body: self.body.deep_view(),
        }
    }
}

impl Clone for Atom {
    fn clone(&self) -> (copy: Self)
        ensures
            copy.deep_view() == self.deep_view(),
    {
        let time = self.time.clone();
        let variant = self.variant.clone();
        let body = self.body.clone();
        Atom { time, variant, body }
    }
}

} // verus!
