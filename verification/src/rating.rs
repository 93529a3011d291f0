//! How the application's safety rating reads on each board.

use vstd::prelude::*;
use crate::types::BWRating;

verus! {

/// The ratings that a Danbooru search can filter by.
#[derive(Clone, Copy, Debug, PartialEq, Eq, Structural)]
pub enum DanbooruRating {
    Explicit,
    Questionable,
    Sensitive,
    General,
}

/// The ratings that a Gelbooru search can filter by.
#[derive(Clone, Copy, Debug, PartialEq, Eq, Structural)]
pub enum GelbooruRating {
    Explicit,
    Questionable,
    Safe,
    Sensitive,
    General,
}

/// The ratings that a Rule34 search can filter by.
#[derive(Clone, Copy, Debug, PartialEq, Eq, Structural)]
pub enum Rule34Rating {
    Explicit,
    Questionable,
    Safe,
    General,
    Sensitive,
}

/// The ratings that a Safebooru search can filter by.
#[derive(Clone, Copy, Debug, PartialEq, Eq, Structural)]
pub enum SafebooruRating {
    Safe,
    General,
    Questionable,
    Explicit,
}

/// The Danbooru board.
pub struct Danbooru;

/// The Gelbooru board.
pub struct Gelbooru;

/// The Rule34 board.
pub struct Rule34;

/// The Safebooru board.
pub struct Safebooru;

/// A board on which the application's rating has a counterpart.
pub trait BWRatingToBooruRating {
    type Rating;

    /// The board's rating for `rating`.
    spec fn rating_spec(rating: BWRating) -> Self::Rating;

    fn rating_from_bw(rating: &BWRating) -> (r: Self::Rating)
        ensures
            r == Self::rating_spec(*rating),
    ;
}

impl BWRatingToBooruRating for Danbooru {
    type Rating = DanbooruRating;

    /// Danbooru calls its safe rating "general".
    open spec fn rating_spec(rating: BWRating) -> DanbooruRating {
        match rating {
            BWRating::Safe => DanbooruRating::General,
            BWRating::Questionable => DanbooruRating::Questionable,
            BWRating::Explicit => DanbooruRating::Explicit,
        }
    }

    fn rating_from_bw(rating: &BWRating) -> (r: DanbooruRating) {
        match rating {
            BWRating::Safe => DanbooruRating::General,
            BWRating::Questionable => DanbooruRating::Questionable,
            BWRating::Explicit => DanbooruRating::Explicit,
        }
    }
}

impl BWRatingToBooruRating for Gelbooru {
    type Rating = GelbooruRating;

    open spec fn rating_spec(rating: BWRating) -> GelbooruRating {
        match rating {
            BWRating::Safe => GelbooruRating::Safe,
            BWRating::Questionable => GelbooruRating::Questionable,
            BWRating::Explicit => GelbooruRating::Explicit,
        }
    }

    fn rating_from_bw(rating: &BWRating) -> (r: GelbooruRating) {
        match rating {
            BWRating::Safe => GelbooruRating::Safe,
            BWRating::Questionable => GelbooruRating::Questionable,
            BWRating::Explicit => GelbooruRating::Explicit,
        }
    }
}

impl BWRatingToBooruRating for Safebooru {
    type Rating = SafebooruRating;

    open spec fn rating_spec(rating: BWRating) -> SafebooruRating {
        match rating {
            BWRating::Safe => SafebooruRating::Safe,
            BWRating::Questionable => SafebooruRating::Questionable,
            BWRating::Explicit => SafebooruRating::Explicit,
        }
    }

    fn rating_from_bw(rating: &BWRating) -> (r: SafebooruRating) {
        match rating {
            BWRating::Safe => SafebooruRating::Safe,
            BWRating::Questionable => SafebooruRating::Questionable,
            BWRating::Explicit => SafebooruRating::Explicit,
        }
    }
}

impl BWRatingToBooruRating for Rule34 {
    type Rating = Rule34Rating;

    open spec fn rating_spec(rating: BWRating) -> Rule34Rating {
        match rating {
            BWRating::Safe => Rule34Rating::Safe,
            BWRating::Questionable => Rule34Rating::Questionable,
            BWRating::Explicit => Rule34Rating::Explicit,
        }
    }

    fn rating_from_bw(rating: &BWRating) -> (r: Rule34Rating) {
        match rating {
            BWRating::Safe => Rule34Rating::Safe,
            BWRating::Questionable => Rule34Rating::Questionable,
            BWRating::Explicit => Rule34Rating::Explicit,
        }
    }
}

/// Every board is asked for the rating the user chose: safe maps to the
/// board's safe rating (Danbooru calls it "general"), questionable to
/// questionable and explicit to explicit, so no two ratings are sent as the
/// same one.
pub proof fn lemma_ratings_keep_their_meaning()
    ensures
        <Danbooru as BWRatingToBooruRating>::rating_spec(BWRating::Safe) == DanbooruRating::General,
        <Danbooru as BWRatingToBooruRating>::rating_spec(BWRating::Questionable) == DanbooruRating::Questionable,
        <Danbooru as BWRatingToBooruRating>::rating_spec(BWRating::Explicit) == DanbooruRating::Explicit,
        <Gelbooru as BWRatingToBooruRating>::rating_spec(BWRating::Safe) == GelbooruRating::Safe,
        <Gelbooru as BWRatingToBooruRating>::rating_spec(BWRating::Questionable) == GelbooruRating::Questionable,
        <Gelbooru as BWRatingToBooruRating>::rating_spec(BWRating::Explicit) == GelbooruRating::Explicit,
        <Rule34 as BWRatingToBooruRating>::rating_spec(BWRating::Safe) == Rule34Rating::Safe,
        <Rule34 as BWRatingToBooruRating>::rating_spec(BWRating::Questionable) == Rule34Rating::Questionable,
        <Rule34 as BWRatingToBooruRating>::rating_spec(BWRating::Explicit) == Rule34Rating::Explicit,
        <Safebooru as BWRatingToBooruRating>::rating_spec(BWRating::Safe) == SafebooruRating::Safe,
        <Safebooru as BWRatingToBooruRating>::rating_spec(BWRating::Questionable) == SafebooruRating::Questionable,
        <Safebooru as BWRatingToBooruRating>::rating_spec(BWRating::Explicit) == SafebooruRating::Explicit,
        forall|a: BWRating, b: BWRating|
            #[trigger] <Danbooru as BWRatingToBooruRating>::rating_spec(a)
                == #[trigger] <Danbooru as BWRatingToBooruRating>::rating_spec(b) ==> a == b,
        forall|a: BWRating, b: BWRating|
            #[trigger] <Gelbooru as BWRatingToBooruRating>::rating_spec(a)
                == #[trigger] <Gelbooru as BWRatingToBooruRating>::rating_spec(b) ==> a == b,
        forall|a: BWRating, b: BWRating|
            #[trigger] <Rule34 as BWRatingToBooruRating>::rating_spec(a)
                == #[trigger] <Rule34 as BWRatingToBooruRating>::rating_spec(b) ==> a == b,
        forall|a: BWRating, b: BWRating|
            #[trigger] <Safebooru as BWRatingToBooruRating>::rating_spec(a)
                == #[trigger] <Safebooru as BWRatingToBooruRating>::rating_spec(b) ==> a == b,
{
}

} // verus!
