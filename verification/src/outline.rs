//! The outline of a package: its rounds, themes and questions in the order
//! in which a reader meets them.

use vstd::prelude::*;
use crate::document::{
    Package, PackageModel, Question, QuestionModel, Round, RoundModel, Theme, ThemeModel,
};

verus! {

/// A node of the outline.
#[derive(Debug)]
pub enum Chunk {
    Round(Round),
    Theme(Theme),
    Question(Question),
}

/// The model of a [`Chunk`].
pub enum ChunkModel {
    Round(RoundModel),
    Theme(ThemeModel),
    Question(QuestionModel),
}

impl DeepView for Chunk {
    type V = ChunkModel;

    open spec fn deep_view(&self) -> ChunkModel {
        match self {
            Chunk::Round(round) => ChunkModel::Round(round.deep_view()),
            Chunk::Theme(theme) => ChunkModel::Theme(theme.deep_view()),
            Chunk::Question(question) => ChunkModel::Question(question.deep_view()),
        }
    }
}

/// The questions, each as a node.
pub open spec fn questions_outline(questions: Seq<QuestionModel>) -> Seq<ChunkModel> {
    Seq::new(questions.len(), |i: int| ChunkModel::Question(questions[i]))
}

/// A theme, followed by its questions.
pub open spec fn theme_outline(theme: ThemeModel) -> Seq<ChunkModel> {
    seq![ChunkModel::Theme(theme)] + questions_outline(theme.questions.questions)
}

/// The outlines of the themes, one after the other.
pub open spec fn themes_outline(themes: Seq<ThemeModel>) -> Seq<ChunkModel>
    decreases themes.len(),
{
    if themes.len() == 0 {
        Seq::empty()
    } else {
        themes_outline(themes.drop_last()) + theme_outline(themes.last())
    }
}

/// A round, followed by the outlines of its themes.
pub open spec fn round_outline(round: RoundModel) -> Seq<ChunkModel> {
    seq![ChunkModel::Round(round)] + themes_outline(round.themes.themes)
}

/// The outlines of the rounds, one after the other.
pub open spec fn rounds_outline(rounds: Seq<RoundModel>) -> Seq<ChunkModel>
    decreases rounds.len(),
{
    if rounds.len() == 0 {
        Seq::empty()
    } else {
        rounds_outline(rounds.drop_last()) + round_outline(rounds.last())
    }
}

/// The outline of a package: every round, each followed by its themes, each
/// theme followed by its questions.
pub open spec fn outline(package: PackageModel) -> Seq<ChunkModel> {
    rounds_outline(package.rounds.rounds)
}

/// Appends one node to an outline.
fn push_chunk(chunks: &mut Vec<Chunk>, chunk: Chunk)
    ensures
        final(chunks).deep_view() == old(chunks).deep_view().push(chunk.deep_view()),
{
    chunks.push(chunk);
    assert(chunks.deep_view() =~= old(chunks).deep_view().push(chunk.deep_view()));
}

/// Appends a theme and its questions to an outline.
fn push_theme(chunks: &mut Vec<Chunk>, theme: &Theme)
    ensures
        final(chunks).deep_view() == old(chunks).deep_view() + theme_outline(theme.deep_view()),
{
    let ghost before = chunks.deep_view();
    let ghost questions = theme.deep_view().questions.questions;
    push_chunk(chunks, Chunk::Theme(theme.clone()));
    let mut i: usize = 0;
    proof {
        assert(chunks.deep_view() =~= before + seq![ChunkModel::Theme(theme.deep_view())]
            + questions_outline(questions).take(0));
    }
    while i < theme.questions.questions.len()
        invariant
            i <= theme.questions.questions@.len(),
            questions == theme.deep_view().questions.questions,
            chunks.deep_view() == before + seq![ChunkModel::Theme(theme.deep_view())]
                + questions_outline(questions).take(i as int),
        decreases theme.questions.questions@.len() - i,
    {
        let question = theme.questions.questions[i].clone();
        proof {
            assert(questions[i as int] == theme.questions.questions@[i as int].deep_view());
            assert(questions_outline(questions).take(i + 1) =~= questions_outline(questions).take(
                i as int,
            ).push(ChunkModel::Question(question.deep_view())));
        }
        push_chunk(chunks, Chunk::Question(question));
        proof {
            assert(chunks.deep_view() =~= before + seq![ChunkModel::Theme(theme.deep_view())]
                + questions_outline(questions).take(i + 1));
        }
        i = i + 1;
    }
    proof {
        assert(questions_outline(questions).take(i as int) =~= questions_outline(questions));
        assert(chunks.deep_view() =~= before + theme_outline(theme.deep_view()));
    }
}

/// Appends a round, its themes and their questions to an outline.
fn push_round(chunks: &mut Vec<Chunk>, round: &Round)
    ensures
        final(chunks).deep_view() == old(chunks).deep_view() + round_outline(round.deep_view()),
{
    let ghost before = chunks.deep_view();
    let ghost themes = round.deep_view().themes.themes;
    push_chunk(chunks, Chunk::Round(round.clone()));
    let mut i: usize = 0;
    proof {
        assert(themes.take(0) =~= Seq::<ThemeModel>::empty());
        assert(chunks.deep_view() =~= before + seq![ChunkModel::Round(round.deep_view())]
            + themes_outline(themes.take(0)));
    }
    while i < round.themes.themes.len()
        invariant
            i <= round.themes.themes@.len(),
            themes == round.deep_view().themes.themes,
            chunks.deep_view() == before + seq![ChunkModel::Round(round.deep_view())]
                + themes_outline(themes.take(i as int)),
        decreases round.themes.themes@.len() - i,
    {
        push_theme(chunks, &round.themes.themes[i]);
        proof {
            assert(themes.take(i + 1).drop_last() =~= themes.take(i as int));
            assert(themes.take(i + 1).last() == round.themes.themes@[i as int].deep_view());
            assert(chunks.deep_view() =~= before + seq![ChunkModel::Round(round.deep_view())]
                + themes_outline(themes.take(i + 1)));
        }
        i = i + 1;
    }
    proof {
        assert(themes.take(i as int) =~= themes);
        assert(chunks.deep_view() =~= before + round_outline(round.deep_view()));
    }
}

impl Package {
    /// The outline of this package: copies of its rounds, themes and
    /// questions, each round followed by its themes and each theme by its
    /// questions.
    pub fn outline(&self) -> (chunks: Vec<Chunk>)
        ensures
            chunks.deep_view() == outline(self.deep_view()),
    {
        let mut chunks: Vec<Chunk> = Vec::new();
        let ghost rounds = self.deep_view().rounds.rounds;
        let mut i: usize = 0;
        proof {
            assert(rounds.take(0) =~= Seq::<RoundModel>::empty());
            assert(chunks.deep_view() =~= rounds_outline(rounds.take(0)));
        }
        while i < self.rounds.rounds.len()
            invariant
                i <= self.rounds.rounds@.len(),
                rounds == self.deep_view().rounds.rounds,
                chunks.deep_view() == rounds_outline(rounds.take(i as int)),
            decreases self.rounds.rounds@.len() - i,
        {
            push_round(&mut chunks, &self.rounds.rounds[i]);
            proof {
                assert(rounds.take(i + 1).drop_last() =~= rounds.take(i as int));
                assert(rounds.take(i + 1).last() == self.rounds.rounds@[i as int].deep_view());
            }
            i = i + 1;
        }
        proof {
            assert(rounds.take(i as int) =~= rounds);
        }
        chunks
    }
}

} // verus!
