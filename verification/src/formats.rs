//! The formats in which the items of a playlist can be had, and the ones
//! that all of them share.

use crate::text::str_eq;
use vstd::prelude::*;

verus! {

/// The resolution that the downloader reports for a format without video.
pub const AUDIO_ONLY: &'static str = "audio only";

/// The codec that the downloader reports where a stream is missing.
pub const NO_CODEC: &'static str = "none";

/// Whether the operator wants video with sound, video alone or sound alone.
#[derive(Debug, Clone, Copy, PartialEq, Eq, Structural)]
pub enum MediaSelection {
    FullVideo,
    VideoOnly,
    AudioOnly,
}

/// The quality and format that the operator asks for, as a mathematical
/// value.
pub ghost enum FormatChoice {
    UniqueFormat(Seq<char>),
    ConvertTo(Seq<char>),
    BestQuality,
    SmallestSize,
}

/// The quality and format that the operator asks for.
#[derive(Debug)]
pub enum VideoQualityAndFormatPreferences {
    /// The format with this code, as the site offers it.
    UniqueFormat(String),
    /// Whatever is best, converted to this container afterwards.
    ConvertTo(String),
    /// The best that each item offers.
    BestQuality,
    /// The smallest file that each item offers.
    SmallestSize,
}

impl View for VideoQualityAndFormatPreferences {
    type V = FormatChoice;

    open spec fn view(&self) -> FormatChoice {
        match self {
            VideoQualityAndFormatPreferences::UniqueFormat(id) => FormatChoice::UniqueFormat(id@),
            VideoQualityAndFormatPreferences::ConvertTo(ext) => FormatChoice::ConvertTo(ext@),
            VideoQualityAndFormatPreferences::BestQuality => FormatChoice::BestQuality,
            VideoQualityAndFormatPreferences::SmallestSize => FormatChoice::SmallestSize,
        }
    }
}

impl Clone for VideoQualityAndFormatPreferences {
    fn clone(&self) -> (r: Self)
        ensures
            r == *self,
    {
        match self {
            VideoQualityAndFormatPreferences::UniqueFormat(id) => {
                VideoQualityAndFormatPreferences::UniqueFormat(id.clone())
            },
            VideoQualityAndFormatPreferences::ConvertTo(ext) => {
                VideoQualityAndFormatPreferences::ConvertTo(ext.clone())
            },
            VideoQualityAndFormatPreferences::BestQuality => {
                VideoQualityAndFormatPreferences::BestQuality
            },
            VideoQualityAndFormatPreferences::SmallestSize => {
                VideoQualityAndFormatPreferences::SmallestSize
            },
        }
    }
}

/// One format in which an item is offered, as a mathematical value.
pub ghost struct FormatDescriptor {
    pub identifier: Seq<char>,
    pub resolution: Seq<char>,
    pub filesize: Option<u64>,
    pub acodec: Option<Seq<char>>,
}

/// One format in which an item is offered.
#[derive(Debug)]
pub struct VideoFormat {
    /// The code by which the downloader knows the format.
    pub format_id: String,
    /// The picture's size, or `AUDIO_ONLY`.
    pub resolution: String,
    /// The size of the file in bytes, unknown for pictures and story boards.
    pub filesize: Option<u64>,
    /// The audio codec; `NO_CODEC` or nothing where there is no sound.
    pub acodec: Option<String>,
}

impl View for VideoFormat {
    type V = FormatDescriptor;

    open spec fn view(&self) -> FormatDescriptor {
        FormatDescriptor {
            identifier: self.format_id@,
            resolution: self.resolution@,
            filesize: self.filesize,
            acodec: match self.acodec {
                Some(codec) => Some(codec@),
                None => None,
            },
        }
    }
}

impl DeepView for VideoFormat {
    type V = FormatDescriptor;

    open spec fn deep_view(&self) -> FormatDescriptor {
        self@
    }
}

impl Clone for VideoFormat {
    fn clone(&self) -> (r: Self)
        ensures
            r == *self,
    {
        VideoFormat {
            format_id: self.format_id.clone(),
            resolution: self.resolution.clone(),
            filesize: self.filesize,
            acodec: match &self.acodec {
                Some(codec) => Some(codec.clone()),
                None => None,
            },
        }
    }
}

/// Whether a format suits what the operator wants to download.
///
/// A format of unknown size never does. Sound alone does not suit full
/// video, and anything with a picture does not suit sound alone. Where the
/// audio codec is known, a format without sound does not suit full video, and
/// one with sound does not suit video alone.
pub open spec fn is_compatible(format: FormatDescriptor, media: MediaSelection) -> bool {
    &&& format.filesize is Some
    &&& !(media == MediaSelection::FullVideo && format.resolution == AUDIO_ONLY@)
    &&& !(media == MediaSelection::AudioOnly && format.resolution != AUDIO_ONLY@)
    &&& format.acodec matches Some(codec) ==> {
        &&& !(media == MediaSelection::FullVideo && codec == NO_CODEC@)
        &&& !(media == MediaSelection::VideoOnly && codec != NO_CODEC@)
    }
}

/// Decides whether `format` suits `media_selected`.
pub fn check_format(format: &VideoFormat, media_selected: &MediaSelection) -> (r: bool)
    ensures
        r == is_compatible(format@, *media_selected),
{
    if format.filesize.is_none() {
        return false;
    }
    let audio_only = str_eq(format.resolution.as_str(), AUDIO_ONLY);
    if *media_selected == MediaSelection::FullVideo && audio_only {
        return false;
    }
    if *media_selected == MediaSelection::AudioOnly && !audio_only {
        return false;
    }
    if let Some(acodec) = &format.acodec {
        let silent = str_eq(acodec.as_str(), NO_CODEC);
        if *media_selected == MediaSelection::FullVideo && silent {
            return false;
        }
        if *media_selected == MediaSelection::VideoOnly && !silent {
            return false;
        }
    }
    true
}

/// All the formats in which one item is offered.
#[derive(Debug)]
pub struct VideoSpecs {
    pub formats: Vec<VideoFormat>,
}

impl View for VideoSpecs {
    type V = Seq<FormatDescriptor>;

    open spec fn view(&self) -> Seq<FormatDescriptor> {
        self.formats.deep_view()
    }
}

impl DeepView for VideoSpecs {
    type V = Seq<FormatDescriptor>;

    open spec fn deep_view(&self) -> Seq<FormatDescriptor> {
        self@
    }
}

impl Clone for VideoSpecs {
    fn clone(&self) -> (r: Self)
        ensures
            r@ == self@,
    {
        let formats = self.formats.clone();
        assert(formats@ =~= self.formats@);
        VideoSpecs { formats }
    }
}

impl VideoSpecs {
    /// The formats, in the order in which the site lists them.
    pub fn formats(&self) -> (r: &Vec<VideoFormat>)
        ensures
            r.deep_view() == self@,
    {
        &self.formats
    }
}

/// The formats of every item of a playlist, item by item.
#[derive(Debug)]
pub struct FormatsLibrary {
    videos: Vec<VideoSpecs>,
}

impl View for FormatsLibrary {
    type V = Seq<Seq<FormatDescriptor>>;

    closed spec fn view(&self) -> Seq<Seq<FormatDescriptor>> {
        self.videos.deep_view()
    }
}

impl FormatsLibrary {
    /// A library without items.
    pub fn new() -> (r: Self)
        ensures
            r@ == Seq::<Seq<FormatDescriptor>>::empty(),
    {
        let r = FormatsLibrary { videos: Vec::new() };
        assert(r.videos.deep_view() =~= Seq::empty());
        r
    }

    /// The library of the items of a playlist whose formats are known. An
    /// item that the site does not describe is left out.
    pub fn from_entries(entries: &Vec<Option<VideoSpecs>>) -> (r: Self)
        ensures
            r@ == available(entries_view(entries@)),
    {
        let ghost all = entries_view(entries@);
        let mut library = FormatsLibrary::new();
        let mut i: usize = 0;
        assert(all.take(0) =~= Seq::empty());
        while i < entries.len()
            invariant
                i <= entries.len(),
                all == entries_view(entries@),
                library@ == available(all.take(i as int)),
            decreases entries.len() - i,
        {
            assert(all.take(i + 1).drop_last() =~= all.take(i as int));
            assert(all.take(i + 1).last() == all[i as int]);
            if let Some(video) = &entries[i] {
                library.add_video(video.clone());
            }
            i += 1;
        }
        assert(all.take(i as int) =~= all);
        library
    }

    /// Adds the formats of one more item behind those that are there.
    pub fn add_video(&mut self, video_formats: VideoSpecs)
        ensures
            final(self)@ == old(self)@.push(video_formats@),
    {
        self.videos.push(video_formats);
        assert(self.videos.deep_view() =~= old(self).videos.deep_view().push(video_formats@));
    }

    /// The items, each with its formats.
    pub fn videos(&self) -> (r: &Vec<VideoSpecs>)
        ensures
            r.deep_view() == self@,
    {
        &self.videos
    }
}

/// The items whose formats are known, in their order.
pub open spec fn available(entries: Seq<Option<Seq<FormatDescriptor>>>) -> Seq<
    Seq<FormatDescriptor>,
>
    decreases entries.len(),
{
    if entries.len() == 0 {
        Seq::empty()
    } else {
        let before = available(entries.drop_last());
        match entries.last() {
            Some(catalog) => before.push(catalog),
            None => before,
        }
    }
}

/// The view of the entries of a playlist, of which some may be missing.
pub open spec fn entries_view(entries: Seq<Option<VideoSpecs>>) -> Seq<
    Option<Seq<FormatDescriptor>>,
> {
    entries.map_values(
        |e: Option<VideoSpecs>|
            match e {
                Some(specs) => Some(specs@),
                None => None,
            },
    )
}

/// The identifiers of the formats of `catalog`, in its order.
pub open spec fn identifiers(catalog: Seq<FormatDescriptor>) -> Seq<Seq<char>> {
    catalog.map_values(|f: FormatDescriptor| f.identifier)
}

/// Whether every item of `catalogs` is offered in a format with the
/// identifier `id`.
pub open spec fn offered_by_all(catalogs: Seq<Seq<FormatDescriptor>>, id: Seq<char>) -> bool {
    forall|k: int| 0 <= k < catalogs.len() ==> identifiers(#[trigger] catalogs[k]).contains(id)
}

/// The elements of `first` that `second` holds too, in the order of `first`.
pub open spec fn intersect(first: Seq<Seq<char>>, second: Seq<Seq<char>>) -> Seq<Seq<char>> {
    first.filter(|id: Seq<char>| second.contains(id))
}

/// The identifiers of the formats in which every item is offered, in the
/// order in which the first item lists them. Without items there is none.
pub open spec fn common_identifiers(catalogs: Seq<Seq<FormatDescriptor>>) -> Seq<Seq<char>> {
    if catalogs.len() == 0 {
        Seq::empty()
    } else {
        identifiers(catalogs[0]).filter(|id: Seq<char>| offered_by_all(catalogs, id))
    }
}

/// The formats of `catalog` that suit `media`, in their order.
pub open spec fn compatible(catalog: Seq<FormatDescriptor>, media: MediaSelection) -> Seq<
    FormatDescriptor,
> {
    catalog.filter(|f: FormatDescriptor| is_compatible(f, media))
}

/// The identifiers of the formats in which every item is offered and which,
/// as the first item describes them, suit `media`. They stand in the order
/// in which the first item lists them. Without items there is none.
pub open spec fn common_formats(catalogs: Seq<Seq<FormatDescriptor>>, media: MediaSelection) -> Seq<
    Seq<char>,
> {
    if catalogs.len() == 0 {
        Seq::empty()
    } else {
        identifiers(
            catalogs[0].filter(
                |f: FormatDescriptor|
                    offered_by_all(catalogs, f.identifier) && is_compatible(f, media),
            ),
        )
    }
}

/// Whether `list` holds `id`.
pub fn holds_identifier(list: &Vec<String>, id: &str) -> (r: bool)
    ensures
        r == list.deep_view().contains(id@),
{
    let mut i: usize = 0;
    while i < list.len()
        invariant
            i <= list.len(),
            forall|j: int| 0 <= j < i ==> list.deep_view()[j] != id@,
        decreases list.len() - i,
    {
        if str_eq(list[i].as_str(), id) {
            assert(list.deep_view()[i as int] == id@);
            return true;
        }
        i += 1;
    }
    false
}

/// The elements of `vec1` that `vec2` holds too, in the order of `vec1`.
pub fn intersection(vec1: &Vec<String>, vec2: &Vec<String>) -> (r: Vec<String>)
    ensures
        r.deep_view() == intersect(vec1.deep_view(), vec2.deep_view()),
{
    let ghost first = vec1.deep_view();
    let ghost second = vec2.deep_view();
    let mut intersections: Vec<String> = Vec::new();
    let mut i: usize = 0;
    proof {
        reveal(Seq::filter);
        assert(first.take(0) =~= Seq::<Seq<char>>::empty());
        assert(intersections.deep_view() =~= Seq::<Seq<char>>::empty());
    }
    while i < vec1.len()
        invariant
            i <= vec1.len(),
            first == vec1.deep_view(),
            second == vec2.deep_view(),
            intersections.deep_view() == intersect(first.take(i as int), second),
        decreases vec1.len() - i,
    {
        let ghost before = intersections.deep_view();
        proof {
            let prefix = first.take(i as int);
            assert(first.take(i + 1) =~= prefix.push(first[i as int]));
            prefix.lemma_filter_push(first[i as int], |id: Seq<char>| second.contains(id));
        }
        if holds_identifier(vec2, vec1[i].as_str()) {
            let element = vec1[i].clone();
            intersections.push(element);
            assert(intersections.deep_view() =~= before.push(first[i as int]));
        }
        i += 1;
    }
    assert(first.take(i as int) =~= first);
    intersections
}

/// Lists the identifiers of the formats of one item.
pub fn list_identifiers(formats: &Vec<VideoFormat>) -> (r: Vec<String>)
    ensures
        r.deep_view() == identifiers(formats.deep_view()),
{
    let mut ids: Vec<String> = Vec::new();
    let mut i: usize = 0;
    while i < formats.len()
        invariant
            i <= formats.len(),
            ids.deep_view() == identifiers(formats.deep_view().take(i as int)),
        decreases formats.len() - i,
    {
        let ghost before = ids.deep_view();
        let id = formats[i].format_id.clone();
        ids.push(id);
        assert(ids.deep_view() =~= before.push(id@));
        assert(formats.deep_view().take(i + 1) =~= formats.deep_view().take(i as int).push(
            formats[i as int]@,
        ));
        i += 1;
    }
    assert(formats.deep_view().take(i as int) =~= formats.deep_view());
    ids
}

/// Finds the identifiers of the formats in which every item of the playlist
/// is offered.
///
/// It starts from the identifiers of the first item and keeps, item by item,
/// those that the next item has too.
pub fn get_common_formats(library: &FormatsLibrary) -> (r: Vec<String>)
    ensures
        r.deep_view() == common_identifiers(library@),
{
    let videos = library.videos();
    let ghost catalogs = library@;
    if videos.len() == 0 {
        let none: Vec<String> = Vec::new();
        assert(none.deep_view() =~= Seq::<Seq<char>>::empty());
        return none;
    }
    let ghost ids = identifiers(catalogs[0]);
    let mut intersections = list_identifiers(videos[0].formats());
    let mut k: usize = 1;
    proof {
        let only_first = |id: Seq<char>| offered_by_all(catalogs.take(1), id);
        assert forall|i: int| 0 <= i < ids.len() implies only_first(#[trigger] ids[i]) by {
            assert(catalogs.take(1)[0] == catalogs[0]);
            assert(ids.contains(ids[i]));
        }
        lemma_filter_keeps_all(ids, only_first);
    }
    while k < videos.len()
        invariant
            1 <= k <= videos.len(),
            catalogs == library@,
            catalogs == videos.deep_view(),
            ids == identifiers(catalogs[0]),
            intersections.deep_view() == ids.filter(
                |id: Seq<char>| offered_by_all(catalogs.take(k as int), id),
            ),
        decreases videos.len() - k,
    {
        let all_ids = list_identifiers(videos[k].formats());
        proof {
            let before = |id: Seq<char>| offered_by_all(catalogs.take(k as int), id);
            let here = |id: Seq<char>| all_ids.deep_view().contains(id);
            let after = |id: Seq<char>| offered_by_all(catalogs.take(k + 1), id);
            assert(all_ids.deep_view() == identifiers(catalogs[k as int]));
            assert forall|i: int| 0 <= i < ids.len() implies after(#[trigger] ids[i]) == (before(
                ids[i],
            ) && here(ids[i])) by {
                let id = ids[i];
                if after(id) {
                    assert(catalogs.take(k + 1)[k as int] == catalogs[k as int]);
                    assert forall|j: int| 0 <= j < k implies identifiers(
                        #[trigger] catalogs.take(k as int)[j],
                    ).contains(id) by {
                        assert(catalogs.take(k + 1)[j] == catalogs.take(k as int)[j]);
                    }
                }
                if before(id) && here(id) {
                    assert forall|j: int| 0 <= j < k + 1 implies identifiers(
                        #[trigger] catalogs.take(k + 1)[j],
                    ).contains(id) by {
                        if j < k {
                            assert(catalogs.take(k + 1)[j] == catalogs.take(k as int)[j]);
                        }
                    }
                }
            }
            lemma_filter_twice(ids, before, here, after);
        }
        intersections = intersection(&intersections, &all_ids);
        k += 1;
    }
    assert(catalogs.take(k as int) =~= catalogs);
    intersections
}

/// Keeps the formats that suit `media`.
pub fn filter_compatible(formats: &Vec<VideoFormat>, media: &MediaSelection) -> (r: Vec<
    VideoFormat,
>)
    ensures
        r.deep_view() == compatible(formats.deep_view(), *media),
{
    let ghost all = formats.deep_view();
    let mut kept: Vec<VideoFormat> = Vec::new();
    let mut i: usize = 0;
    proof {
        reveal(Seq::filter);
        assert(all.take(0) =~= Seq::<FormatDescriptor>::empty());
        assert(kept.deep_view() =~= Seq::<FormatDescriptor>::empty());
    }
    while i < formats.len()
        invariant
            i <= formats.len(),
            all == formats.deep_view(),
            kept.deep_view() == compatible(all.take(i as int), *media),
        decreases formats.len() - i,
    {
        let ghost before = kept.deep_view();
        proof {
            let prefix = all.take(i as int);
            assert(all.take(i + 1) =~= prefix.push(all[i as int]));
            prefix.lemma_filter_push(all[i as int], |f: FormatDescriptor| is_compatible(f, *media));
        }
        if check_format(&formats[i], media) {
            let format = formats[i].clone();
            kept.push(format);
            assert(kept.deep_view() =~= before.push(all[i as int]));
        }
        i += 1;
    }
    assert(all.take(i as int) =~= all);
    kept
}

/// Lists the identifiers of the formats of one item that suit `media`, in
/// the order in which the site lists them.
pub fn compatible_identifiers(specs: &VideoSpecs, media: &MediaSelection) -> (r: Vec<String>)
    ensures
        r.deep_view() == identifiers(compatible(specs@, *media)),
{
    let kept = filter_compatible(specs.formats(), media);
    list_identifiers(&kept)
}

/// Finds the formats that can be offered to the operator for the whole
/// playlist: those in which every item is offered and which suit `media`.
/// The result holds their identifiers in the order of the first item.
///
/// The result is empty where the playlist has no item, where an item has
/// no format, and where no common format suits.
pub fn get_common_compatible_formats(library: &FormatsLibrary, media: &MediaSelection) -> (r: Vec<
    String,
>)
    ensures
        r.deep_view() == common_formats(library@, *media),
{
    let videos = library.videos();
    let ghost catalogs = library@;
    let mut correct_ids: Vec<String> = Vec::new();
    if videos.len() == 0 {
        assert(correct_ids.deep_view() =~= Seq::<Seq<char>>::empty());
        return correct_ids;
    }
    let intersections = get_common_formats(library);
    let first = videos[0].formats();
    let ghost all = catalogs[0];
    let ghost keep = |f: FormatDescriptor|
        offered_by_all(catalogs, f.identifier) && is_compatible(f, *media);
    let mut i: usize = 0;
    proof {
        reveal(Seq::filter);
        assert(all.take(0) =~= Seq::<FormatDescriptor>::empty());
        assert(correct_ids.deep_view() =~= Seq::<Seq<char>>::empty());
    }
    while i < first.len()
        invariant
            i <= first.len(),
            catalogs == library@,
            catalogs.len() > 0,
            all == catalogs[0],
            all == first.deep_view(),
            intersections.deep_view() == common_identifiers(catalogs),
            keep == (|f: FormatDescriptor|
                offered_by_all(catalogs, f.identifier) && is_compatible(f, *media)),
            correct_ids.deep_view() == identifiers(all.take(i as int).filter(keep)),
        decreases first.len() - i,
    {
        let ghost before = correct_ids.deep_view();
        let format = &first[i];
        proof {
            let prefix = all.take(i as int);
            assert(all.take(i + 1) =~= prefix.push(all[i as int]));
            prefix.lemma_filter_push(all[i as int], keep);
            lemma_common_identifier(catalogs, format@.identifier);
            assert(prefix.filter(keep).push(all[i as int]).map_values(
                |f: FormatDescriptor| f.identifier,
            ) =~= identifiers(prefix.filter(keep)).push(all[i as int].identifier));
        }
        if check_format(format, media) && holds_identifier(&intersections, format.format_id.as_str()) {
            let id = format.format_id.clone();
            correct_ids.push(id);
            assert(correct_ids.deep_view() =~= before.push(all[i as int].identifier));
        }
        i += 1;
    }
    assert(all.take(i as int) =~= all);
    correct_ids
}

/// A filter whose condition holds of every element keeps everything.
pub proof fn lemma_filter_keeps_all<A>(s: Seq<A>, p: spec_fn(A) -> bool)
    requires
        forall|i: int| 0 <= i < s.len() ==> p(#[trigger] s[i]),
    ensures
        s.filter(p) == s,
    decreases s.len(),
{
    reveal(Seq::filter);
    if s.len() > 0 {
        let init = s.drop_last();
        assert forall|i: int| 0 <= i < init.len() implies p(#[trigger] init[i]) by {
            assert(init[i] == s[i]);
        }
        lemma_filter_keeps_all(init, p);
        assert(p(s[s.len() - 1]));
        assert(init.push(s.last()) =~= s);
    }
}

/// A filter whose condition holds of no element keeps nothing.
pub proof fn lemma_filter_keeps_none<A>(s: Seq<A>, p: spec_fn(A) -> bool)
    requires
        forall|i: int| 0 <= i < s.len() ==> !p(#[trigger] s[i]),
    ensures
        s.filter(p) == Seq::<A>::empty(),
    decreases s.len(),
{
    reveal(Seq::filter);
    if s.len() > 0 {
        let init = s.drop_last();
        assert forall|i: int| 0 <= i < init.len() implies !p(#[trigger] init[i]) by {
            assert(init[i] == s[i]);
        }
        lemma_filter_keeps_none(init, p);
        assert(!p(s[s.len() - 1]));
    }
}

/// Filtering twice keeps what meets both conditions.
pub proof fn lemma_filter_twice<A>(
    s: Seq<A>,
    p: spec_fn(A) -> bool,
    q: spec_fn(A) -> bool,
    both: spec_fn(A) -> bool,
)
    requires
        forall|i: int| 0 <= i < s.len() ==> both(#[trigger] s[i]) == (p(s[i]) && q(s[i])),
    ensures
        s.filter(p).filter(q) == s.filter(both),
    decreases s.len(),
{
    reveal(Seq::filter);
    if s.len() > 0 {
        let init = s.drop_last();
        let x = s.last();
        assert forall|i: int| 0 <= i < init.len() implies both(#[trigger] init[i]) == (p(init[i])
            && q(init[i])) by {
            assert(init[i] == s[i]);
        }
        lemma_filter_twice(init, p, q, both);
        assert(both(s[s.len() - 1]) == (p(x) && q(x)));
        if p(x) {
            init.filter(p).lemma_filter_push(x, q);
        }
    }
}

/// Keeping the suitable formats of what was kept before changes nothing.
pub proof fn law_compatible_is_idempotent(catalog: Seq<FormatDescriptor>, media: MediaSelection)
    ensures
        compatible(compatible(catalog, media), media) == compatible(catalog, media),
{
    let suits = |f: FormatDescriptor| is_compatible(f, media);
    lemma_filter_twice(catalog, suits, suits, suits);
}

/// An item that is offered in no format leaves no common format.
pub proof fn law_empty_catalog_empties(
    catalogs: Seq<Seq<FormatDescriptor>>,
    media: MediaSelection,
    k: int,
)
    requires
        0 <= k < catalogs.len(),
        catalogs[k].len() == 0,
    ensures
        common_identifiers(catalogs) == Seq::<Seq<char>>::empty(),
        common_formats(catalogs, media) == Seq::<Seq<char>>::empty(),
{
    let ids = identifiers(catalogs[0]);
    assert forall|id: Seq<char>| !offered_by_all(catalogs, id) by {
        assert(identifiers(catalogs[k]).len() == 0);
        assert(!identifiers(catalogs[k]).contains(id));
    }
    lemma_filter_keeps_none(ids, |id: Seq<char>| offered_by_all(catalogs, id));
    lemma_filter_keeps_none(
        catalogs[0],
        |f: FormatDescriptor| offered_by_all(catalogs, f.identifier) && is_compatible(f, media),
    );
    assert(identifiers(Seq::<FormatDescriptor>::empty()) =~= Seq::<Seq<char>>::empty());
}

/// An identifier is common exactly when there is an item and every item is
/// offered in a format with it.
pub proof fn lemma_common_identifier(catalogs: Seq<Seq<FormatDescriptor>>, id: Seq<char>)
    ensures
        common_identifiers(catalogs).contains(id) <==> catalogs.len() > 0 && offered_by_all(
            catalogs,
            id,
        ),
{
    if catalogs.len() > 0 {
        let ids = identifiers(catalogs[0]);
        let keep = |id: Seq<char>| offered_by_all(catalogs, id);
        let kept = ids.filter(keep);
        if kept.contains(id) {
            let j = choose|j: int| 0 <= j < kept.len() && kept[j] == id;
            ids.lemma_filter_pred(keep, j);
        }
        if offered_by_all(catalogs, id) {
            assert(identifiers(catalogs[0]).contains(id));
            let i = choose|i: int| 0 <= i < ids.len() && ids[i] == id;
            ids.lemma_filter_contains(keep, i);
        }
    }
}

/// Which identifiers are common does not depend on the order of the items:
/// two lists that hold the same items have the same set of common
/// identifiers.
pub proof fn law_common_identifiers_ignore_order(
    a: Seq<Seq<FormatDescriptor>>,
    b: Seq<Seq<FormatDescriptor>>,
)
    requires
        a.to_set() == b.to_set(),
    ensures
        common_identifiers(a).to_set() == common_identifiers(b).to_set(),
{
    assert forall|id: Seq<char>|
        common_identifiers(a).contains(id) == common_identifiers(b).contains(id) by {
        lemma_common_identifier(a, id);
        lemma_common_identifier(b, id);
        lemma_same_items(a, b, id);
        lemma_same_items(b, a, id);
    }
    assert(common_identifiers(a).to_set() =~= common_identifiers(b).to_set());
}

/// What every item of `a` offers, every item of a list of the same items
/// offers too.
proof fn lemma_same_items(
    a: Seq<Seq<FormatDescriptor>>,
    b: Seq<Seq<FormatDescriptor>>,
    id: Seq<char>,
)
    requires
        a.to_set() == b.to_set(),
    ensures
        a.len() > 0 && offered_by_all(a, id) ==> b.len() > 0 && offered_by_all(b, id),
{
    if a.len() > 0 && offered_by_all(a, id) {
        assert(a.to_set().contains(a[0]));
        assert(b.contains(a[0]));
        assert forall|k: int| 0 <= k < b.len() implies identifiers(#[trigger] b[k]).contains(
            id,
        ) by {
            assert(b.to_set().contains(b[k]));
            assert(a.contains(b[k]));
            let j = choose|j: int| 0 <= j < a.len() && a[j] == b[k];
            assert(identifiers(a[j]).contains(id));
        }
    }
}

} // verus!
