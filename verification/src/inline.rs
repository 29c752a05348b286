//! Inline results: what an answer to an inline query is made of, and the
//! mapping from catalog entries to them.

use crate::decimal::{decimal, decimal_string, lemma_decimal_injective, lemma_decimal_nonempty};
use crate::risibank::{RisibankSearchResult, Sticker, StickerView};
use vstd::prelude::*;
use vstd::std_specs::convert::FromSpecImpl;
use vstd::string::StrSliceExecFns;

verus! {

/// The largest number of results one answer carries.
pub const MAX_RESULTS: usize = 15;

/// The extension token that marks an animation.
pub open spec fn gif_ext() -> Seq<char> {
    "gif"@
}

/// What both kinds of inline result carry.
#[derive(Debug, Clone, PartialEq, Eq)]
pub struct InlineMedia {
    /// The result identifier.
    pub id: String,
    /// The media target.
    pub media_url: String,
    /// The thumbnail target.
    pub thumb_url: String,
}

pub struct InlineMediaView {
    pub id: Seq<char>,
    pub media_url: Seq<char>,
    pub thumb_url: Seq<char>,
}

impl View for InlineMedia {
    type V = InlineMediaView;

    open spec fn view(&self) -> InlineMediaView {
        InlineMediaView { id: self.id@, media_url: self.media_url@, thumb_url: self.thumb_url@ }
    }
}

/// One entry of an answer: an animation or a still image.
#[derive(Debug, Clone, PartialEq, Eq)]
pub enum InlineQueryResult {
    Gif(InlineMedia),
    Photo(InlineMedia),
}

pub enum InlineQueryResultView {
    Gif(InlineMediaView),
    Photo(InlineMediaView),
}

impl View for InlineQueryResult {
    type V = InlineQueryResultView;

    open spec fn view(&self) -> InlineQueryResultView {
        match self {
            InlineQueryResult::Gif(media) => InlineQueryResultView::Gif(media@),
            InlineQueryResult::Photo(media) => InlineQueryResultView::Photo(media@),
        }
    }
}

impl InlineQueryResultView {
    /// What the result carries, whatever its kind.
    pub open spec fn media(self) -> InlineMediaView {
        match self {
            InlineQueryResultView::Gif(media) => media,
            InlineQueryResultView::Photo(media) => media,
        }
    }
}

/// The inline result of one sticker.
pub open spec fn inline_result(sticker: StickerView) -> InlineQueryResultView {
    let media = InlineMediaView {
        id: decimal(sticker.id),
        media_url: sticker.risibank_link,
        thumb_url: sticker.risibank_link,
    };
    if sticker.ext == gif_ext() {
        InlineQueryResultView::Gif(media)
    } else {
        InlineQueryResultView::Photo(media)
    }
}

/// How many results the answer to `available` stickers holds.
pub open spec fn answer_len(available: nat) -> nat {
    if available <= MAX_RESULTS {
        available
    } else {
        MAX_RESULTS as nat
    }
}

/// The inline results of a catalog response.
pub open spec fn inline_results(stickers: Seq<StickerView>) -> Seq<InlineQueryResultView> {
    Seq::new(answer_len(stickers.len()), |i: int| inline_result(stickers[i]))
}

/// The views of a sequence of results.
pub open spec fn results_view(results: Seq<InlineQueryResult>) -> Seq<InlineQueryResultView> {
    results.map_values(|r: InlineQueryResult| r@)
}

/// The identifiers of a sequence of results, in order.
pub open spec fn result_ids(results: Seq<InlineQueryResultView>) -> Seq<Seq<char>> {
    results.map_values(|r: InlineQueryResultView| r.media().id)
}

/// The identifiers of a sequence of stickers, each written in decimal, in
/// order.
pub open spec fn sticker_ids(stickers: Seq<StickerView>) -> Seq<Seq<char>> {
    stickers.map_values(|s: StickerView| decimal(s.id))
}

/// Whether no two entries of `ids` are the same.
pub open spec fn distinct<A>(ids: Seq<A>) -> bool {
    forall|i: int, j: int| 0 <= i < j < ids.len() ==> ids[i] != ids[j]
}

/// An answer holds as many results as the catalog gave stickers, and never
/// more than `MAX_RESULTS`.
pub proof fn lemma_answer_length(stickers: Seq<StickerView>)
    ensures
        inline_results(stickers).len() == if stickers.len() <= MAX_RESULTS {
            stickers.len()
        } else {
            MAX_RESULTS as nat
        },
        inline_results(stickers).len() <= MAX_RESULTS,
        stickers.len() == 0 ==> inline_results(stickers) == Seq::<InlineQueryResultView>::empty(),
{
    assert(stickers.len() == 0 ==> inline_results(stickers) =~= Seq::empty());
}

/// Every result of an answer is the inline result of the sticker at its own
/// place in the catalog response: the answer keeps the catalog's order and
/// leaves out only what lies beyond `MAX_RESULTS`.
pub proof fn lemma_answer_keeps_order(stickers: Seq<StickerView>, i: int)
    requires
        0 <= i < inline_results(stickers).len(),
    ensures
        i < stickers.len(),
        inline_results(stickers)[i] == inline_result(stickers[i]),
{
}

/// The identifiers of an answer are those of the first `MAX_RESULTS`
/// stickers of the catalog response, written in decimal, in the same order.
pub proof fn lemma_answer_ids(stickers: Seq<StickerView>)
    ensures
        result_ids(inline_results(stickers)) == sticker_ids(
            stickers.take(answer_len(stickers.len()) as int),
        ),
{
    assert(result_ids(inline_results(stickers)) =~= sticker_ids(
        stickers.take(answer_len(stickers.len()) as int),
    ));
}

/// A sticker becomes an animation exactly when its extension is `gif`,
/// letter for letter, and a photo otherwise.
pub proof fn lemma_kind_follows_extension(sticker: StickerView)
    ensures
        inline_results(seq![sticker]).len() == 1,
        inline_results(seq![sticker])[0] is Gif <==> sticker.ext == "gif"@,
        inline_results(seq![sticker])[0] is Photo <==> sticker.ext != "gif"@,
{
}

/// Whatever its kind, a result carries the decimal identifier of its sticker
/// and the sticker's link as both media and thumbnail target.
pub proof fn lemma_result_carries_sticker(sticker: StickerView)
    ensures
        inline_result(sticker).media().id == decimal(sticker.id),
        inline_result(sticker).media().id.len() >= 1,
        inline_result(sticker).media().media_url == sticker.risibank_link,
        inline_result(sticker).media().thumb_url == sticker.risibank_link,
{
    lemma_decimal_nonempty(sticker.id);
}

/// Where the catalog gives no identifier twice, no two results of the answer
/// share an identifier.
pub proof fn lemma_answer_ids_distinct(stickers: Seq<StickerView>)
    requires
        forall|i: int, j: int|
            0 <= i < j < stickers.len() ==> (#[trigger] stickers[i]).id != (
            #[trigger] stickers[j]).id,
    ensures
        distinct(result_ids(inline_results(stickers))),
{
    let ids = result_ids(inline_results(stickers));
    assert forall|i: int, j: int| 0 <= i < j < ids.len() implies ids[i] != ids[j] by {
        assert(ids[i] == decimal(stickers[i].id));
        assert(ids[j] == decimal(stickers[j].id));
        if ids[i] == ids[j] {
            lemma_decimal_injective(stickers[i].id, stickers[j].id);
        }
    }
}

/// Whether `ext` is exactly the token that marks an animation.
pub fn is_gif(ext: &str) -> (gif: bool)
    ensures
        gif == (ext@ == gif_ext()),
{
    let gif = ext.unicode_len() == 3 && ext.get_char(0) == 'g' && ext.get_char(1) == 'i'
        && ext.get_char(2) == 'f';
    proof {
        reveal_strlit("gif");
        assert(gif == (ext@ =~= "gif"@));
    }
    gif
}

impl From<&Sticker> for InlineQueryResult {
    fn from(sticker: &Sticker) -> (result: InlineQueryResult)
        ensures
            result@ == inline_result(sticker@),
    {
        let media = InlineMedia {
            id: decimal_string(sticker.id),
            media_url: sticker.risibank_link.clone(),
            thumb_url: sticker.risibank_link.clone(),
        };
        if is_gif(sticker.ext.as_str()) {
            InlineQueryResult::Gif(media)
        } else {
            InlineQueryResult::Photo(media)
        }
    }
}

impl FromSpecImpl<&Sticker> for InlineQueryResult {
    open spec fn obeys_from_spec() -> bool {
        false
    }

    open spec fn from_spec(sticker: &Sticker) -> InlineQueryResult {
        arbitrary()
    }
}

impl From<RisibankSearchResult> for Vec<InlineQueryResult> {
    fn from(result: RisibankSearchResult) -> (results: Vec<InlineQueryResult>)
        ensures
            results_view(results@) == inline_results(result@),
    {
        let count = if result.stickers.len() <= MAX_RESULTS {
            result.stickers.len()
        } else {
            MAX_RESULTS
        };
        let mut results: Vec<InlineQueryResult> = Vec::new();
        let mut i: usize = 0;
        while i < count
            invariant
                i <= count,
                count == answer_len(result@.len()),
                count <= result.stickers.len(),
                results.len() == i,
                forall|j: int| 0 <= j < i ==> (#[trigger] results[j])@ == inline_result(result@[j]),
            decreases count - i,
        {
            results.push(InlineQueryResult::from(&result.stickers[i]));
            i += 1;
        }
        assert(results_view(results@) =~= inline_results(result@));
        results
    }
}

impl FromSpecImpl<RisibankSearchResult> for Vec<InlineQueryResult> {
    open spec fn obeys_from_spec() -> bool {
        false
    }

    open spec fn from_spec(result: RisibankSearchResult) -> Vec<InlineQueryResult> {
        arbitrary()
    }
}

} // verus!
