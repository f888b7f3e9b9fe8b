//! Whole runs of an analysis: what holds of it after any events that it waited
//! for, in the order in which it waited for them.

use vstd::prelude::*;

use crate::analysis;
use crate::analysis::{Action, Event, Progress, Verdict, VerdictView, WaitView};
use crate::chat;
use crate::detection::{DetectionManifest, DetectionSample};
use crate::encoding;
use crate::json;
use crate::json::JsonView;
use crate::text;
use crate::vlm::{VlmError, VlmErrorView};

verus! {

/// How far an analysis has come after `events`.
pub open spec fn progress_after(
    manifest: DetectionManifest,
    base_url: Seq<char>,
    events: Seq<Event>,
) -> Progress
    decreases events.len(),
{
    if events.len() == 0 {
        Progress::initial().settled(manifest)
    } else {
        progress_after(manifest, base_url, events.drop_last()).after(
            manifest,
            base_url,
            events.last(),
        )
    }
}

/// Whether each of `events` was waited for, and every object that came back is
/// one.
pub open spec fn is_run(
    manifest: DetectionManifest,
    base_url: Seq<char>,
    events: Seq<Event>,
) -> bool
    decreases events.len(),
{
    events.len() > 0 ==> {
        &&& is_run(manifest, base_url, events.drop_last())
        &&& progress_after(manifest, base_url, events.drop_last()).accepts(events.last())
        &&& events.last() matches Event::Answered(Verdict::Object(value)) ==> json::value_tree(
            value,
        ) is Object
    }
}

/// What deciding on the next wait leaves as it is, and what it decides.
proof fn lemma_settled(progress: Progress, manifest: DetectionManifest)
    requires
        0 <= progress.sample <= manifest.samples@.len(),
        0 <= progress.face,
        progress.sample < manifest.samples@.len() ==> progress.face <= progress.at(
            manifest,
        ).faces@.len(),
        progress.vlm_errors <= progress.results.len(),
    ensures
        progress.settled(manifest).valid(manifest),
        progress.settled(manifest).results == progress.results,
        progress.settled(manifest).vlm_errors == progress.vlm_errors,
        progress.settled(manifest).sample >= progress.sample,
        progress.settled(manifest).sample == progress.sample ==> progress.settled(manifest).face
            == progress.face && progress.settled(manifest).crops == progress.crops,
        progress.settled(manifest).sample > progress.sample ==> progress.settled(manifest).face == 0
            && progress.settled(manifest).crops.len() == 0,
        progress.settled(manifest).wait is Crop || progress.settled(manifest).wait is FirstReply
            || progress.settled(manifest).wait is Done,
        progress.settled(manifest).wait is FirstReply ==> progress.settled(manifest).sample
            == progress.sample,
        progress.settled(manifest).sample > progress.sample ==> progress.face >= progress.at(
            manifest,
        ).faces@.len() && progress.crops.len() == 0,
        forall|i: int|
            progress.sample < i < progress.settled(manifest).sample
                ==> (#[trigger] manifest.samples@[i]).faces@.len() == 0,
    decreases manifest.samples@.len() - progress.sample,
{
    if progress.sample < manifest.samples@.len() && progress.face >= progress.at(
        manifest,
    ).faces@.len() && progress.crops.len() == 0 {
        lemma_settled(progress.moved_on(), manifest);
    }
}

/// What an event leaves before it is decided what to wait for next. There is
/// nothing to decide where the event asks for the second request or ends the
/// run.
pub open spec fn unsettled_after(
    progress: Progress,
    manifest: DetectionManifest,
    event: Event,
) -> Option<Progress> {
    let sample = progress.at(manifest);
    let timestamp = sample.timestamp@;
    let next = Progress { face: progress.face + 1, ..progress };
    match event {
        Event::CropRead(Ok(bytes)) => Some(
            Progress {
                crops: progress.crops.push(
                    (sample.faces@[progress.face].face_id, encoding::base64_text(bytes@)),
                ),
                ..next
            },
        ),
        Event::CropRead(Err(error)) => Some(
            next.with_error(timestamp, analysis::crop_error(error@)),
        ),
        Event::Answered(verdict) => match verdict@ {
            VerdictView::Object(tree) => Some(
                progress.with_result(analysis::pinned(tree, timestamp)).moved_on(),
            ),
            VerdictView::Unparsed(reply) => if progress.wait is FirstReply {
                None
            } else {
                Some(
                    progress.with_error(
                        timestamp,
                        VlmErrorView::MalformedJson(text::excerpt(reply)).message(),
                    ).moved_on(),
                )
            },
            VerdictView::Failed(VlmErrorView::Unreachable(_)) => None,
            VerdictView::Failed(error) => Some(
                progress.with_error(timestamp, error.message()).moved_on(),
            ),
        },
    }
}

/// The entry that an event adds to the report, if it adds one.
pub open spec fn entry_added(
    progress: Progress,
    manifest: DetectionManifest,
    event: Event,
) -> Option<JsonView> {
    let timestamp = progress.at(manifest).timestamp@;
    match event {
        Event::CropRead(Ok(_)) => None,
        Event::CropRead(Err(error)) => Some(
            analysis::error_entry(timestamp, analysis::crop_error(error@)),
        ),
        Event::Answered(verdict) => match verdict@ {
            VerdictView::Object(tree) => Some(analysis::pinned(tree, timestamp)),
            VerdictView::Unparsed(reply) => if progress.wait is FirstReply {
                None
            } else {
                Some(
                    analysis::error_entry(
                        timestamp,
                        VlmErrorView::MalformedJson(text::excerpt(reply)).message(),
                    ),
                )
            },
            VerdictView::Failed(VlmErrorView::Unreachable(_)) => None,
            VerdictView::Failed(error) => Some(analysis::error_entry(timestamp, error.message())),
        },
    }
}

/// Whether an event is a failure that the report records.
pub open spec fn is_recorded_failure(progress: Progress, event: Event) -> bool {
    match event {
        Event::CropRead(outcome) => outcome is Err,
        Event::Answered(verdict) => match verdict@ {
            VerdictView::Object(_) => false,
            VerdictView::Unparsed(_) => !(progress.wait is FirstReply),
            VerdictView::Failed(error) => !(error is Unreachable),
        },
    }
}

/// The crops of a sample after some of them were read: those that could be, each
/// as the base64 text of its bytes.
pub open spec fn crops_read(
    sample: DetectionSample,
    reads: Seq<Result<Vec<u8>, String>>,
) -> Seq<(u32, Seq<char>)>
    decreases reads.len(),
{
    if reads.len() == 0 {
        Seq::<(u32, Seq<char>)>::empty()
    } else {
        let before = crops_read(sample, reads.drop_last());
        match reads.last() {
            Ok(bytes) => before.push(
                (sample.faces@[reads.len() - 1].face_id, encoding::base64_text(bytes@)),
            ),
            Err(_) => before,
        }
    }
}

/// The entries for the crops of a sample that could not be read.
pub open spec fn crop_failures(
    sample: DetectionSample,
    reads: Seq<Result<Vec<u8>, String>>,
) -> Seq<JsonView>
    decreases reads.len(),
{
    if reads.len() == 0 {
        Seq::<JsonView>::empty()
    } else {
        let before = crop_failures(sample, reads.drop_last());
        match reads.last() {
            Ok(_) => before,
            Err(error) => before.push(
                analysis::error_entry(sample.timestamp@, analysis::crop_error(error@)),
            ),
        }
    }
}

/// Law: what one event does. It adds at most one entry, and counts a failure
/// exactly when it records one. A crop that was read is kept as base64 text. An
/// answer ends the work on its sample with an entry, unless it asks for the second
/// request or ends the run; and it ends the run exactly when the server is
/// unreachable.
pub proof fn one_event(
    progress: Progress,
    manifest: DetectionManifest,
    base_url: Seq<char>,
    event: Event,
)
    requires
        progress.valid(manifest),
        progress.accepts(event),
    ensures
        ({
            let next = progress.after(manifest, base_url, event);
            &&& next.valid(manifest)
            &&& next.results == match entry_added(progress, manifest, event) {
                Some(entry) => progress.results.push(entry),
                None => progress.results,
            }
            &&& next.vlm_errors == progress.vlm_errors + if is_recorded_failure(progress, event) {
                1nat
            } else {
                0
            }
            &&& next.sample >= progress.sample
            &&& next.sample > progress.sample ==> next.face == 0 && next.crops.len() == 0
            &&& next.sample > progress.sample ==> match event {
                Event::CropRead(outcome) => outcome is Err && progress.face + 1 == progress.at(
                    manifest,
                ).faces@.len() && progress.crops.len() == 0,
                Event::Answered(_) => true,
            }
            &&& forall|i: int|
                progress.sample < i < next.sample ==> (#[trigger] manifest.samples@[i]).faces@.len()
                    == 0
            &&& next.sample == progress.sample ==> match event {
                Event::CropRead(Ok(bytes)) => next.face == progress.face + 1 && next.crops
                    == progress.crops.push(
                    (
                        progress.at(manifest).faces@[progress.face].face_id,
                        encoding::base64_text(bytes@),
                    ),
                ),
                Event::CropRead(Err(_)) => next.face == progress.face + 1 && next.crops
                    == progress.crops,
                Event::Answered(_) => next.face == progress.face && next.crops == progress.crops,
            }
            &&& event is Answered ==> next.sample > progress.sample || next.wait is SecondReply
                || next.wait is Aborted
            &&& event is Answered ==> (entry_added(progress, manifest, event) is Some <==> next.sample
                > progress.sample)
            &&& next.wait is SecondReply ==> progress.wait is FirstReply && next.sample
                == progress.sample
            &&& match event {
                Event::Answered(Verdict::Failed(error)) => match error@ {
                    VlmErrorView::Unreachable(reason) => next.wait == WaitView::Aborted(
                        analysis::unreachable_error(base_url, reason),
                    ),
                    _ => !(next.wait is Aborted),
                },
                _ => !(next.wait is Aborted),
            }
        }),
{
    if let Some(next) = unsettled_after(progress, manifest, event) {
        lemma_settled(next, manifest);
    }
}

/// Law: a run stands in a valid state after any of its events, and so it is
/// always defined what it waits for.
pub proof fn runs_stay_valid(
    manifest: DetectionManifest,
    base_url: Seq<char>,
    events: Seq<Event>,
)
    requires
        is_run(manifest, base_url, events),
    ensures
        progress_after(manifest, base_url, events).valid(manifest),
    decreases events.len(),
{
    if events.len() == 0 {
        lemma_settled(Progress::initial(), manifest);
    } else {
        runs_stay_valid(manifest, base_url, events.drop_last());
        one_event(
            progress_after(manifest, base_url, events.drop_last()),
            manifest,
            base_url,
            events.last(),
        );
    }
}

/// How many events the samples from `first` on can take: one for each face, and
/// two for each sample.
pub open spec fn work_from(manifest: DetectionManifest, first: int) -> nat
    decreases manifest.samples@.len() - first,
{
    if first < 0 || first >= manifest.samples@.len() {
        0
    } else {
        manifest.samples@[first].faces@.len() + 2 + work_from(manifest, first + 1)
    }
}

/// How many events a run can still take.
pub open spec fn work_left(progress: Progress, manifest: DetectionManifest) -> int {
    let rest = work_from(manifest, progress.sample + 1) as int;
    match progress.wait {
        WaitView::Crop => progress.at(manifest).faces@.len() - progress.face + 2 + rest,
        WaitView::FirstReply => 2 + rest,
        WaitView::SecondReply(_) => 1 + rest,
        WaitView::Done => 0,
        WaitView::Aborted(_) => 0,
    }
}

/// Deciding on the next wait makes no work.
proof fn lemma_settled_work(progress: Progress, manifest: DetectionManifest)
    requires
        0 <= progress.sample <= manifest.samples@.len(),
        0 <= progress.face,
        progress.sample < manifest.samples@.len() ==> progress.face <= progress.at(
            manifest,
        ).faces@.len(),
    ensures
        0 <= work_left(progress.settled(manifest), manifest),
        progress.sample == manifest.samples@.len() ==> work_left(
            progress.settled(manifest),
            manifest,
        ) == 0,
        progress.sample < manifest.samples@.len() ==> work_left(progress.settled(manifest), manifest)
            <= progress.at(manifest).faces@.len() - progress.face + 2 + work_from(
            manifest,
            progress.sample + 1,
        ),
    decreases manifest.samples@.len() - progress.sample,
{
    if progress.sample < manifest.samples@.len() && progress.face >= progress.at(
        manifest,
    ).faces@.len() && progress.crops.len() == 0 {
        lemma_settled_work(progress.moved_on(), manifest);
    }
}

/// Law: every event brings a run nearer to its end.
pub proof fn events_use_up_work(
    progress: Progress,
    manifest: DetectionManifest,
    base_url: Seq<char>,
    event: Event,
)
    requires
        progress.valid(manifest),
        progress.accepts(event),
    ensures
        0 <= work_left(progress.after(manifest, base_url, event), manifest) < work_left(
            progress,
            manifest,
        ),
{
    if let Some(next) = unsettled_after(progress, manifest, event) {
        lemma_settled_work(next, manifest);
    }
}

/// Law: a run ends. It takes no more events than there are faces, and two more
/// for each sample.
pub proof fn runs_end(manifest: DetectionManifest, base_url: Seq<char>, events: Seq<Event>)
    requires
        is_run(manifest, base_url, events),
    ensures
        0 <= work_left(progress_after(manifest, base_url, events), manifest),
        events.len() + work_left(progress_after(manifest, base_url, events), manifest)
            <= work_from(manifest, 0),
    decreases events.len(),
{
    if events.len() == 0 {
        lemma_settled_work(Progress::initial(), manifest);
    } else {
        runs_end(manifest, base_url, events.drop_last());
        runs_stay_valid(manifest, base_url, events.drop_last());
        events_use_up_work(
            progress_after(manifest, base_url, events.drop_last()),
            manifest,
            base_url,
            events.last(),
        );
    }
}

/// How many chat requests about the sample at `index` were called for.
pub open spec fn requests_about(
    manifest: DetectionManifest,
    base_url: Seq<char>,
    events: Seq<Event>,
    index: int,
) -> nat
    decreases events.len(),
{
    let now = progress_after(manifest, base_url, events);
    let asked = if (now.wait is FirstReply || now.wait is SecondReply) && now.sample == index {
        1nat
    } else {
        0
    };
    if events.len() == 0 {
        asked
    } else {
        requests_about(manifest, base_url, events.drop_last(), index) + asked
    }
}

proof fn lemma_requests_about(
    manifest: DetectionManifest,
    base_url: Seq<char>,
    events: Seq<Event>,
    index: int,
)
    requires
        is_run(manifest, base_url, events),
    ensures
        ({
            let now = progress_after(manifest, base_url, events);
            let requests = requests_about(manifest, base_url, events, index);
            &&& requests <= 2
            &&& now.sample < index ==> requests == 0
            &&& now.sample == index && now.wait is Crop ==> requests == 0
            &&& now.sample == index && now.wait is FirstReply ==> requests == 1
            &&& now.sample == index && now.wait is SecondReply ==> requests == 2
        }),
    decreases events.len(),
{
    if events.len() == 0 {
        lemma_settled(Progress::initial(), manifest);
    } else {
        let before = progress_after(manifest, base_url, events.drop_last());
        lemma_requests_about(manifest, base_url, events.drop_last(), index);
        runs_stay_valid(manifest, base_url, events.drop_last());
        one_event(before, manifest, base_url, events.last());
    }
}

/// Law: the model is asked at most twice about one sample.
pub proof fn at_most_two_requests_about_a_sample(
    manifest: DetectionManifest,
    base_url: Seq<char>,
    events: Seq<Event>,
    index: int,
)
    requires
        is_run(manifest, base_url, events),
    ensures
        requests_about(manifest, base_url, events, index) <= 2,
{
    lemma_requests_about(manifest, base_url, events, index);
}

/// How the crops of the sample at `index` were read, in order.
pub open spec fn reads_of(
    manifest: DetectionManifest,
    base_url: Seq<char>,
    events: Seq<Event>,
    index: int,
) -> Seq<Result<Vec<u8>, String>>
    decreases events.len(),
{
    if events.len() == 0 {
        Seq::<Result<Vec<u8>, String>>::empty()
    } else {
        let earlier = reads_of(manifest, base_url, events.drop_last(), index);
        match events.last() {
            Event::CropRead(outcome) => if progress_after(
                manifest,
                base_url,
                events.drop_last(),
            ).sample == index {
                earlier.push(outcome)
            } else {
                earlier
            },
            Event::Answered(_) => earlier,
        }
    }
}

/// Law: every face has its crop read exactly once: those of the samples that are
/// done, those of the sample at work up to the one that is next, and no others
/// yet.
pub proof fn every_face_is_read_once(
    manifest: DetectionManifest,
    base_url: Seq<char>,
    events: Seq<Event>,
    index: int,
)
    requires
        is_run(manifest, base_url, events),
        0 <= index < manifest.samples@.len(),
    ensures
        ({
            let now = progress_after(manifest, base_url, events);
            reads_of(manifest, base_url, events, index).len() == if index < now.sample {
                manifest.samples@[index].faces@.len() as int
            } else if index == now.sample {
                now.face
            } else {
                0
            }
        }),
    decreases events.len(),
{
    if events.len() == 0 {
        lemma_settled(Progress::initial(), manifest);
    } else {
        let before = progress_after(manifest, base_url, events.drop_last());
        every_face_is_read_once(manifest, base_url, events.drop_last(), index);
        runs_stay_valid(manifest, base_url, events.drop_last());
        one_event(before, manifest, base_url, events.last());
    }
}

/// No event is about a sample that is not there.
proof fn lemma_reads_past_the_end(
    manifest: DetectionManifest,
    base_url: Seq<char>,
    events: Seq<Event>,
)
    requires
        is_run(manifest, base_url, events),
    ensures
        reads_of(manifest, base_url, events, manifest.samples@.len() as int).len() == 0,
    decreases events.len(),
{
    if events.len() > 0 {
        lemma_reads_past_the_end(manifest, base_url, events.drop_last());
        runs_stay_valid(manifest, base_url, events.drop_last());
    }
}

/// Law: the crops that a request carries are those of its own sample: the base64
/// text of what was read at the paths of the sample's faces, in their order, and
/// nothing else.
pub proof fn requests_carry_the_crops_of_their_sample(
    manifest: DetectionManifest,
    base_url: Seq<char>,
    events: Seq<Event>,
)
    requires
        is_run(manifest, base_url, events),
    ensures
        ({
            let now = progress_after(manifest, base_url, events);
            let reads = reads_of(manifest, base_url, events, now.sample);
            &&& reads.len() == now.face
            &&& now.crops == crops_read(now.at(manifest), reads)
        }),
    decreases events.len(),
{
    let now = progress_after(manifest, base_url, events);
    let reads = reads_of(manifest, base_url, events, now.sample);
    runs_stay_valid(manifest, base_url, events);
    if now.sample < manifest.samples@.len() {
        every_face_is_read_once(manifest, base_url, events, now.sample);
    } else {
        lemma_reads_past_the_end(manifest, base_url, events);
    }
    if events.len() == 0 {
        lemma_settled(Progress::initial(), manifest);
        assert(now.crops =~= crops_read(now.at(manifest), reads));
    } else {
        let before = progress_after(manifest, base_url, events.drop_last());
        requests_carry_the_crops_of_their_sample(manifest, base_url, events.drop_last());
        runs_stay_valid(manifest, base_url, events.drop_last());
        one_event(before, manifest, base_url, events.last());
        if now.sample != before.sample {
            assert(now.crops =~= crops_read(now.at(manifest), reads));
        } else if events.last() is CropRead {
            assert(reads.drop_last() == reads_of(
                manifest,
                base_url,
                events.drop_last(),
                before.sample,
            ));
        }
    }
}

/// Law: once a sample is done, the model was asked about it exactly if one of its
/// crops could be read.
pub proof fn samples_with_a_crop_are_asked_about(
    manifest: DetectionManifest,
    base_url: Seq<char>,
    events: Seq<Event>,
    index: int,
)
    requires
        is_run(manifest, base_url, events),
        0 <= index < progress_after(manifest, base_url, events).sample,
    ensures
        requests_about(manifest, base_url, events, index) > 0 <==> crops_read(
            manifest.samples@[index],
            reads_of(manifest, base_url, events, index),
        ).len() > 0,
    decreases events.len(),
{
    let now = progress_after(manifest, base_url, events);
    runs_stay_valid(manifest, base_url, events);
    every_face_is_read_once(manifest, base_url, events, index);
    lemma_requests_about(manifest, base_url, events, index);
    if events.len() == 0 {
        lemma_settled(Progress::initial(), manifest);
    } else {
        let before = progress_after(manifest, base_url, events.drop_last());
        runs_stay_valid(manifest, base_url, events.drop_last());
        one_event(before, manifest, base_url, events.last());
        lemma_requests_about(manifest, base_url, events.drop_last(), index);
        if index < before.sample {
            samples_with_a_crop_are_asked_about(manifest, base_url, events.drop_last(), index);
        } else if index == before.sample {
            let earlier = reads_of(manifest, base_url, events.drop_last(), index);
            let reads = reads_of(manifest, base_url, events, index);
            requests_carry_the_crops_of_their_sample(manifest, base_url, events.drop_last());
            if events.last() is CropRead {
                assert(reads.drop_last() == earlier);
            }
        } else {
            every_face_is_read_once(manifest, base_url, events.drop_last(), index);
        }
    }
}

/// The entry for the model's answer about the sample at `index`, if there is one.
pub open spec fn answer_about(
    manifest: DetectionManifest,
    base_url: Seq<char>,
    events: Seq<Event>,
    index: int,
) -> Option<JsonView>
    decreases events.len(),
{
    if events.len() == 0 {
        None
    } else {
        let before = progress_after(manifest, base_url, events.drop_last());
        let added = entry_added(before, manifest, events.last());
        if events.last() is Answered && before.sample == index && added is Some {
            added
        } else {
            answer_about(manifest, base_url, events.drop_last(), index)
        }
    }
}

/// The entries of the sample at `index`: those of its crops that could not be
/// read, in order, and behind them the one for the model's answer.
pub open spec fn entries_about(
    manifest: DetectionManifest,
    base_url: Seq<char>,
    events: Seq<Event>,
    index: int,
) -> Seq<JsonView> {
    let failures = crop_failures(
        manifest.samples@[index],
        reads_of(manifest, base_url, events, index),
    );
    match answer_about(manifest, base_url, events, index) {
        Some(entry) => failures.push(entry),
        None => failures,
    }
}

/// The entries of the first `count` samples.
pub open spec fn entries_of_first(
    manifest: DetectionManifest,
    base_url: Seq<char>,
    events: Seq<Event>,
    count: int,
) -> Seq<JsonView>
    decreases count,
{
    if count <= 0 {
        Seq::<JsonView>::empty()
    } else {
        entries_of_first(manifest, base_url, events, count - 1) + entries_about(
            manifest,
            base_url,
            events,
            count - 1,
        )
    }
}

/// There is no answer about a sample whose turn has not come, nor about the one
/// at work.
proof fn lemma_no_answer_yet(
    manifest: DetectionManifest,
    base_url: Seq<char>,
    events: Seq<Event>,
    index: int,
)
    requires
        is_run(manifest, base_url, events),
        index >= progress_after(manifest, base_url, events).sample,
    ensures
        answer_about(manifest, base_url, events, index) is None,
    decreases events.len(),
{
    if events.len() > 0 {
        runs_stay_valid(manifest, base_url, events.drop_last());
        one_event(
            progress_after(manifest, base_url, events.drop_last()),
            manifest,
            base_url,
            events.last(),
        );
        lemma_no_answer_yet(manifest, base_url, events.drop_last(), index);
    }
}

/// Law: once a sample is done, there is an entry for the model's answer about it
/// exactly if one of its crops could be read.
pub proof fn samples_with_a_crop_are_answered(
    manifest: DetectionManifest,
    base_url: Seq<char>,
    events: Seq<Event>,
    index: int,
)
    requires
        is_run(manifest, base_url, events),
        0 <= index < progress_after(manifest, base_url, events).sample,
    ensures
        answer_about(manifest, base_url, events, index) is Some <==> crops_read(
            manifest.samples@[index],
            reads_of(manifest, base_url, events, index),
        ).len() > 0,
    decreases events.len(),
{
    runs_stay_valid(manifest, base_url, events);
    every_face_is_read_once(manifest, base_url, events, index);
    if events.len() == 0 {
        lemma_settled(Progress::initial(), manifest);
    } else {
        let before = progress_after(manifest, base_url, events.drop_last());
        runs_stay_valid(manifest, base_url, events.drop_last());
        one_event(before, manifest, base_url, events.last());
        if index < before.sample {
            samples_with_a_crop_are_answered(manifest, base_url, events.drop_last(), index);
        } else {
            lemma_no_answer_yet(manifest, base_url, events.drop_last(), index);
            requests_carry_the_crops_of_their_sample(manifest, base_url, events.drop_last());
            if index == before.sample && events.last() is CropRead {
                assert(reads_of(manifest, base_url, events, index).drop_last() == reads_of(
                    manifest,
                    base_url,
                    events.drop_last(),
                    index,
                ));
            }
        }
    }
}

/// Where every crop could be read, there are as many crops as faces and no
/// failures.
proof fn lemma_all_read(sample: DetectionSample, reads: Seq<Result<Vec<u8>, String>>)
    requires
        forall|k: int| 0 <= k < reads.len() ==> (#[trigger] reads[k]) is Ok,
    ensures
        crops_read(sample, reads).len() == reads.len(),
        crop_failures(sample, reads).len() == 0,
    decreases reads.len(),
{
    if reads.len() > 0 {
        lemma_all_read(sample, reads.drop_last());
        assert(reads.last() is Ok);
    }
}

/// Law: a done sample with faces has exactly one entry, the one for the model's
/// answer, where all of its crops could be read.
pub proof fn readable_samples_have_one_entry(
    manifest: DetectionManifest,
    base_url: Seq<char>,
    events: Seq<Event>,
    index: int,
)
    requires
        is_run(manifest, base_url, events),
        0 <= index < progress_after(manifest, base_url, events).sample,
        manifest.samples@[index].faces@.len() > 0,
        forall|k: int|
            0 <= k < reads_of(manifest, base_url, events, index).len() ==> (
            #[trigger] reads_of(manifest, base_url, events, index)[k]) is Ok,
    ensures
        answer_about(manifest, base_url, events, index) matches Some(entry) && entries_about(
            manifest,
            base_url,
            events,
            index,
        ) == seq![entry],
{
    runs_stay_valid(manifest, base_url, events);
    every_face_is_read_once(manifest, base_url, events, index);
    samples_with_a_crop_are_answered(manifest, base_url, events, index);
    lemma_all_read(manifest.samples@[index], reads_of(manifest, base_url, events, index));
}

/// An event leaves the entries of the samples that are done as they are.
proof fn lemma_entries_stay(
    manifest: DetectionManifest,
    base_url: Seq<char>,
    events: Seq<Event>,
    count: int,
)
    requires
        events.len() > 0,
        count <= progress_after(manifest, base_url, events.drop_last()).sample,
    ensures
        entries_of_first(manifest, base_url, events, count) == entries_of_first(
            manifest,
            base_url,
            events.drop_last(),
            count,
        ),
    decreases count,
{
    if count > 0 {
        lemma_entries_stay(manifest, base_url, events, count - 1);
    }
}

/// Samples without faces have no entries.
proof fn lemma_skipped_samples(
    manifest: DetectionManifest,
    base_url: Seq<char>,
    events: Seq<Event>,
    from: int,
    to: int,
)
    requires
        is_run(manifest, base_url, events),
        0 <= from <= to <= progress_after(manifest, base_url, events).sample,
        to <= manifest.samples@.len(),
        forall|i: int|
            from <= i < to ==> (#[trigger] manifest.samples@[i]).faces@.len() == 0,
        forall|i: int|
            from <= i < to ==> (#[trigger] answer_about(manifest, base_url, events, i)) is None,
    ensures
        entries_of_first(manifest, base_url, events, to) == entries_of_first(
            manifest,
            base_url,
            events,
            from,
        ),
    decreases to - from,
{
    if from < to {
        lemma_skipped_samples(manifest, base_url, events, from, to - 1);
        assert(manifest.samples@[to - 1].faces@.len() == 0);
        assert(answer_about(manifest, base_url, events, to - 1) is None);
        every_face_is_read_once(manifest, base_url, events, to - 1);
        assert(entries_about(manifest, base_url, events, to - 1) =~= Seq::<JsonView>::empty());
    }
}

/// Law: what a report holds. Its entries are those of the samples, in order: of
/// each sample that is done, one entry for every crop that could not be read, in
/// order, and then the one for the model's answer; of the sample at work, those
/// of its unreadable crops so far.
pub proof fn entries_of_a_run(
    manifest: DetectionManifest,
    base_url: Seq<char>,
    events: Seq<Event>,
)
    requires
        is_run(manifest, base_url, events),
    ensures
        ({
            let now = progress_after(manifest, base_url, events);
            now.results == entries_of_first(manifest, base_url, events, now.sample)
                + crop_failures(
                now.at(manifest),
                reads_of(manifest, base_url, events, now.sample),
            )
        }),
    decreases events.len(),
{
    let now = progress_after(manifest, base_url, events);
    let reads = reads_of(manifest, base_url, events, now.sample);
    let failures = crop_failures(now.at(manifest), reads);
    let done = entries_of_first(manifest, base_url, events, now.sample);
    runs_stay_valid(manifest, base_url, events);
    requests_carry_the_crops_of_their_sample(manifest, base_url, events);
    if events.len() == 0 {
        lemma_settled(Progress::initial(), manifest);
        if now.sample > 0 {
            assert(manifest.samples@[0].faces@.len() == 0);
        }
        lemma_skipped_samples(manifest, base_url, events, 0, now.sample);
        assert(now.results =~= done + failures);
    } else {
        let before = progress_after(manifest, base_url, events.drop_last());
        let s = before.sample;
        let earlier = reads_of(manifest, base_url, events.drop_last(), s);
        let after_reads = reads_of(manifest, base_url, events, s);
        runs_stay_valid(manifest, base_url, events.drop_last());
        one_event(before, manifest, base_url, events.last());
        entries_of_a_run(manifest, base_url, events.drop_last());
        lemma_entries_stay(manifest, base_url, events, s);
        lemma_no_answer_yet(manifest, base_url, events.drop_last(), s);
        if events.last() is CropRead {
            assert(after_reads.drop_last() == earlier);
        }
        if now.sample == s {
            assert(now.results =~= done + failures);
        } else {
            assert forall|i: int| s + 1 <= i < now.sample implies (#[trigger] answer_about(
                manifest,
                base_url,
                events,
                i,
            )) is None by {
                lemma_no_answer_yet(manifest, base_url, events.drop_last(), i);
            }
            lemma_skipped_samples(manifest, base_url, events, s + 1, now.sample);
            assert(now.results =~= entries_of_first(manifest, base_url, events, s)
                + entries_about(manifest, base_url, events, s));
            assert(failures =~= Seq::<JsonView>::empty());
        }
    }
}

/// Law: the report of a run whose every sample is done holds the entries of all
/// samples, in order, and nothing else.
pub proof fn entries_of_a_done_run(
    manifest: DetectionManifest,
    base_url: Seq<char>,
    events: Seq<Event>,
)
    requires
        is_run(manifest, base_url, events),
        progress_after(manifest, base_url, events).wait is Done,
    ensures
        progress_after(manifest, base_url, events).results == entries_of_first(
            manifest,
            base_url,
            events,
            manifest.samples@.len() as int,
        ),
{
    entries_of_a_run(manifest, base_url, events);
    runs_stay_valid(manifest, base_url, events);
    lemma_reads_past_the_end(manifest, base_url, events);
}

/// Whether every crop of `events` could be read.
pub open spec fn every_crop_was_read(events: Seq<Event>) -> bool {
    forall|k: int|
        0 <= k < events.len() ==> ((#[trigger] events[k]) matches Event::CropRead(outcome)
            ==> outcome is Ok)
}

/// Where every crop could be read, so could those of each sample.
proof fn lemma_reads_of_a_sample(
    manifest: DetectionManifest,
    base_url: Seq<char>,
    events: Seq<Event>,
    index: int,
)
    requires
        every_crop_was_read(events),
    ensures
        forall|k: int|
            0 <= k < reads_of(manifest, base_url, events, index).len() ==> (
            #[trigger] reads_of(manifest, base_url, events, index)[k]) is Ok,
    decreases events.len(),
{
    if events.len() > 0 {
        assert forall|k: int| 0 <= k < events.drop_last().len() implies ((
        #[trigger] events.drop_last()[k]) matches Event::CropRead(outcome) ==> outcome is Ok) by {
            assert(events.drop_last()[k] == events[k]);
        }
        lemma_reads_of_a_sample(manifest, base_url, events.drop_last(), index);
        assert(events[events.len() - 1] == events.last());
    }
}

proof fn lemma_one_entry_each(
    manifest: DetectionManifest,
    base_url: Seq<char>,
    events: Seq<Event>,
    count: int,
)
    requires
        is_run(manifest, base_url, events),
        every_crop_was_read(events),
        0 <= count <= progress_after(manifest, base_url, events).sample,
        forall|k: int|
            0 <= k < manifest.samples@.len() ==> (#[trigger] manifest.samples@[k]).faces@.len() > 0,
    ensures
        entries_of_first(manifest, base_url, events, count).len() == count,
    decreases count,
{
    if count > 0 {
        runs_stay_valid(manifest, base_url, events);
        lemma_one_entry_each(manifest, base_url, events, count - 1);
        lemma_reads_of_a_sample(manifest, base_url, events, count - 1);
        assert(manifest.samples@[count - 1].faces@.len() > 0);
        readable_samples_have_one_entry(manifest, base_url, events, count - 1);
    }
}

/// Law: where every sample has a face and every crop could be read, the report of
/// a run whose every sample is done has one entry for each sample.
pub proof fn one_entry_for_each_sample(
    manifest: DetectionManifest,
    base_url: Seq<char>,
    events: Seq<Event>,
)
    requires
        is_run(manifest, base_url, events),
        progress_after(manifest, base_url, events).wait is Done,
        every_crop_was_read(events),
        forall|k: int|
            0 <= k < manifest.samples@.len() ==> (#[trigger] manifest.samples@[k]).faces@.len() > 0,
    ensures
        progress_after(manifest, base_url, events).results.len() == manifest.samples@.len(),
{
    runs_stay_valid(manifest, base_url, events);
    entries_of_a_done_run(manifest, base_url, events);
    lemma_one_entry_each(manifest, base_url, events, manifest.samples@.len() as int);
}

/// For each entry, the sample that it is about.
pub open spec fn samples_of_entries(
    manifest: DetectionManifest,
    base_url: Seq<char>,
    events: Seq<Event>,
) -> Seq<int>
    decreases events.len(),
{
    if events.len() == 0 {
        Seq::<int>::empty()
    } else {
        let before = progress_after(manifest, base_url, events.drop_last());
        let earlier = samples_of_entries(manifest, base_url, events.drop_last());
        if entry_added(before, manifest, events.last()) is Some {
            earlier.push(before.sample)
        } else {
            earlier
        }
    }
}

/// The timestamp of an entry is the one that it was given.
proof fn lemma_entry_timestamp(tree: JsonView, timestamp: Seq<char>, error: Seq<char>)
    ensures
        analysis::error_entry(timestamp, error).entry("timestamp"@) == JsonView::Str(timestamp),
        tree is Object ==> analysis::pinned(tree, timestamp).entry("timestamp"@) == JsonView::Str(
            timestamp,
        ),
{
    reveal_strlit("timestamp");
    reveal_strlit("error");
    assert("timestamp"@.len() != "error"@.len());
}

/// Law: every entry of a report carries the timestamp of the sample that it is
/// about, whatever the model said, and the entries stand in the order of the
/// samples.
pub proof fn entries_carry_their_timestamp(
    manifest: DetectionManifest,
    base_url: Seq<char>,
    events: Seq<Event>,
)
    requires
        is_run(manifest, base_url, events),
    ensures
        ({
            let now = progress_after(manifest, base_url, events);
            let samples = samples_of_entries(manifest, base_url, events);
            &&& samples.len() == now.results.len()
            &&& forall|k: int|
                0 <= k < samples.len() ==> 0 <= #[trigger] samples[k] < manifest.samples@.len()
                    && samples[k] <= now.sample
            &&& forall|k: int|
                0 <= k < samples.len() ==> (#[trigger] now.results[k]).entry("timestamp"@)
                    == JsonView::Str(manifest.samples@[samples[k]].timestamp@)
            &&& forall|j: int, k: int| 0 <= j <= k < samples.len() ==> samples[j] <= samples[k]
        }),
    decreases events.len(),
{
    if events.len() == 0 {
        lemma_settled(Progress::initial(), manifest);
    } else {
        let before = progress_after(manifest, base_url, events.drop_last());
        let timestamp = before.at(manifest).timestamp@;
        entries_carry_their_timestamp(manifest, base_url, events.drop_last());
        runs_stay_valid(manifest, base_url, events.drop_last());
        one_event(before, manifest, base_url, events.last());
        match events.last() {
            Event::CropRead(outcome) => {
                if let Err(error) = outcome {
                    lemma_entry_timestamp(
                        JsonView::Null,
                        timestamp,
                        analysis::crop_error(error@),
                    );
                }
            },
            Event::Answered(verdict) => {
                match verdict@ {
                    VerdictView::Object(tree) => {
                        lemma_entry_timestamp(tree, timestamp, timestamp);
                    },
                    VerdictView::Unparsed(reply) => {
                        lemma_entry_timestamp(
                            JsonView::Null,
                            timestamp,
                            VlmErrorView::MalformedJson(text::excerpt(reply)).message(),
                        );
                    },
                    VerdictView::Failed(error) => {
                        lemma_entry_timestamp(JsonView::Null, timestamp, error.message());
                    },
                }
            },
        }
    }
}

/// How many of `events` were failures that the report records.
pub open spec fn recorded_failures(
    manifest: DetectionManifest,
    base_url: Seq<char>,
    events: Seq<Event>,
) -> nat
    decreases events.len(),
{
    if events.len() == 0 {
        0
    } else {
        recorded_failures(manifest, base_url, events.drop_last()) + if is_recorded_failure(
            progress_after(manifest, base_url, events.drop_last()),
            events.last(),
        ) {
            1nat
        } else {
            0
        }
    }
}

/// How many of `events` brought an object from the model.
pub open spec fn objects_received(events: Seq<Event>) -> nat
    decreases events.len(),
{
    if events.len() == 0 {
        0
    } else {
        objects_received(events.drop_last()) + if events.last() matches Event::Answered(
            Verdict::Object(_),
        ) {
            1nat
        } else {
            0
        }
    }
}

/// Law: the failures are counted right: the count is the number of failures that
/// were recorded, and every other entry is an object from the model.
pub proof fn failures_are_counted(
    manifest: DetectionManifest,
    base_url: Seq<char>,
    events: Seq<Event>,
)
    requires
        is_run(manifest, base_url, events),
    ensures
        progress_after(manifest, base_url, events).vlm_errors == recorded_failures(
            manifest,
            base_url,
            events,
        ),
        progress_after(manifest, base_url, events).results.len() == recorded_failures(
            manifest,
            base_url,
            events,
        ) + objects_received(events),
    decreases events.len(),
{
    if events.len() == 0 {
        lemma_settled(Progress::initial(), manifest);
    } else {
        let before = progress_after(manifest, base_url, events.drop_last());
        failures_are_counted(manifest, base_url, events.drop_last());
        runs_stay_valid(manifest, base_url, events.drop_last());
        one_event(before, manifest, base_url, events.last());
    }
}

/// Law: an unreachable server ends the run at once: nothing is waited for any
/// more, nothing was added to the entries, and the error names the server. A run
/// that ended so can never be done.
pub proof fn unreachable_server_ends_the_run(
    manifest: DetectionManifest,
    base_url: Seq<char>,
    events: Seq<Event>,
    reason: Seq<char>,
    later: Event,
)
    requires
        is_run(manifest, base_url, events),
        events.len() > 0,
        events.last() matches Event::Answered(verdict) && verdict@ == VerdictView::Failed(
            VlmErrorView::Unreachable(reason),
        ),
    ensures
        ({
            let now = progress_after(manifest, base_url, events);
            &&& now.wait == WaitView::Aborted(analysis::unreachable_error(base_url, reason))
            &&& now.results == progress_after(manifest, base_url, events.drop_last()).results
            &&& !now.accepts(later)
        }),
{
}

/// Law: a run that ended early ended because the server was unreachable.
pub proof fn only_an_unreachable_server_ends_a_run_early(
    manifest: DetectionManifest,
    base_url: Seq<char>,
    events: Seq<Event>,
)
    requires
        is_run(manifest, base_url, events),
        progress_after(manifest, base_url, events).wait is Aborted,
    ensures
        events.len() > 0,
        events.last() matches Event::Answered(Verdict::Failed(error)) && error is Unreachable,
{
    if events.len() == 0 {
        lemma_settled(Progress::initial(), manifest);
    } else {
        runs_stay_valid(manifest, base_url, events.drop_last());
        one_event(
            progress_after(manifest, base_url, events.drop_last()),
            manifest,
            base_url,
            events.last(),
        );
    }
}

/// Law: a first reply that is no JSON is answered with one more request, about
/// the same crops, which repeats that reply. A second one is recorded for its
/// timestamp, and the run goes on with another sample.
pub proof fn malformed_replies_are_retried_once(
    progress: Progress,
    manifest: DetectionManifest,
    base_url: Seq<char>,
    first: Seq<char>,
    second: Seq<char>,
)
    requires
        progress.valid(manifest),
        progress.wait is FirstReply,
    ensures
        ({
            let asked_again = progress.after_answer(
                manifest,
                base_url,
                VerdictView::Unparsed(first),
            );
            let given_up = asked_again.after_answer(
                manifest,
                base_url,
                VerdictView::Unparsed(second),
            );
            &&& asked_again == (Progress { wait: WaitView::SecondReply(first), ..progress })
            &&& given_up.results == progress.results.push(
                analysis::error_entry(
                    progress.at(manifest).timestamp@,
                    "VLM returned malformed JSON after retry: "@ + text::excerpt(second),
                ),
            )
            &&& given_up.vlm_errors == progress.vlm_errors + 1
            &&& given_up.sample > progress.sample
            &&& !(given_up.wait is Aborted)
        }),
{
    let asked_again = progress.after_answer(manifest, base_url, VerdictView::Unparsed(first));
    lemma_settled(
        asked_again.with_error(
            progress.at(manifest).timestamp@,
            VlmErrorView::MalformedJson(text::excerpt(second)).message(),
        ).moved_on(),
        manifest,
    );
}

/// Law: without any face there is nothing to wait for, nothing to ask and
/// nothing to enter.
pub proof fn without_faces_nothing_is_asked(manifest: DetectionManifest)
    requires
        forall|k: int|
            0 <= k < manifest.samples@.len() ==> (#[trigger] manifest.samples@[k]).faces@.len()
                == 0,
    ensures
        Progress::initial().settled(manifest).wait is Done,
        Progress::initial().settled(manifest).results.len() == 0,
        Progress::initial().settled(manifest).vlm_errors == 0,
{
    lemma_settled(Progress::initial(), manifest);
}

/// Law: a crop that was read is kept behind those before it, with the number of
/// its face and the base64 text of its bytes. Nothing is recorded, and the run
/// stays with the sample: it reads the next crop, or else asks about them all.
pub proof fn crops_that_were_read_are_kept(
    progress: Progress,
    manifest: DetectionManifest,
    base_url: Seq<char>,
    bytes: Vec<u8>,
)
    requires
        progress.valid(manifest),
        progress.accepts(Event::CropRead(Ok(bytes))),
    ensures
        ({
            let sample = manifest.samples@[progress.sample];
            let next = progress.after(manifest, base_url, Event::CropRead(Ok(bytes)));
            &&& next.sample == progress.sample
            &&& next.face == progress.face + 1
            &&& next.crops.len() == progress.crops.len() + 1
            &&& next.crops.drop_last() == progress.crops
            &&& next.crops.last().0 == sample.faces@[progress.face].face_id
            &&& next.crops.last().1 == encoding::base64_text(bytes@)
            &&& next.results == progress.results
            &&& next.vlm_errors == progress.vlm_errors
            &&& next.wait is Crop <==> next.face < sample.faces@.len()
            &&& next.wait is FirstReply <==> next.face == sample.faces@.len()
        }),
{
    one_event(progress, manifest, base_url, Event::CropRead(Ok(bytes)));
    let next = progress.after(manifest, base_url, Event::CropRead(Ok(bytes)));
    assert(next.crops.drop_last() =~= progress.crops);
}

/// Law: a crop that could not be read is recorded as one failure at the timestamp
/// of its sample, and counted. The crops that were read are kept as long as the
/// sample is at work.
pub proof fn unreadable_crops_are_recorded(
    progress: Progress,
    manifest: DetectionManifest,
    base_url: Seq<char>,
    error: String,
)
    requires
        progress.valid(manifest),
        progress.wait is Crop,
    ensures
        ({
            let sample = manifest.samples@[progress.sample];
            let next = progress.after(manifest, base_url, Event::CropRead(Err(error)));
            &&& next.results.len() == progress.results.len() + 1
            &&& next.results.drop_last() == progress.results
            &&& next.results.last().keys() == set!["timestamp"@, "error"@]
            &&& next.results.last().entry("timestamp"@) == JsonView::Str(sample.timestamp@)
            &&& next.results.last().entry("error"@) == JsonView::Str(
                "failed to read face crop: "@ + error@,
            )
            &&& next.vlm_errors == progress.vlm_errors + 1
            &&& progress.face + 1 < sample.faces@.len() || progress.crops.len() > 0 ==> next.sample
                == progress.sample && next.face == progress.face + 1 && next.crops
                == progress.crops
            &&& progress.face + 1 == sample.faces@.len() && progress.crops.len() == 0
                ==> next.sample > progress.sample
            &&& !(next.wait is Aborted)
        }),
{
    let event = Event::CropRead(Err(error));
    one_event(progress, manifest, base_url, event);
    let next = progress.after(manifest, base_url, event);
    assert(next.results.drop_last() =~= progress.results);
    analysis::recorded_failures_name_their_timestamp(
        manifest.samples@[progress.sample].timestamp@,
        "failed to read face crop: "@ + error@,
    );
}

/// Law: an object from the model is recorded as it is but for the timestamp,
/// which is that of its sample. It counts as no failure, and the sample is done.
pub proof fn answers_are_recorded_whole(
    progress: Progress,
    manifest: DetectionManifest,
    base_url: Seq<char>,
    value: serde_json::Value,
)
    requires
        progress.valid(manifest),
        progress.wait is FirstReply || progress.wait is SecondReply,
        json::value_tree(value) is Object,
    ensures
        ({
            let tree = json::value_tree(value);
            let event = Event::Answered(Verdict::Object(value));
            let next = progress.after(manifest, base_url, event);
            &&& next.results.len() == progress.results.len() + 1
            &&& next.results.drop_last() == progress.results
            &&& next.results.last().keys() == tree.keys().insert("timestamp"@)
            &&& next.results.last().entry("timestamp"@) == JsonView::Str(
                manifest.samples@[progress.sample].timestamp@,
            )
            &&& forall|key: Seq<char>|
                key != "timestamp"@ ==> #[trigger] next.results.last().entry(key) == tree.entry(key)
            &&& next.vlm_errors == progress.vlm_errors
            &&& next.sample > progress.sample
            &&& !(next.wait is Aborted)
        }),
{
    let tree = json::value_tree(value);
    let timestamp = manifest.samples@[progress.sample].timestamp@;
    let event = Event::Answered(Verdict::Object(value));
    one_event(progress, manifest, base_url, event);
    let next = progress.after(manifest, base_url, event);
    assert(next.results.drop_last() =~= progress.results);
    assert(next.results.last() == analysis::pinned(tree, timestamp));
    analysis::only_the_timestamp_is_pinned(tree, timestamp, timestamp);
    assert forall|key: Seq<char>| key != "timestamp"@ implies #[trigger] next.results.last().entry(
        key,
    ) == tree.entry(key) by {
        analysis::only_the_timestamp_is_pinned(tree, timestamp, key);
    }
}

/// Law: a failed request is recorded as one failure at the timestamp of its
/// sample, in full, and counted; the run goes on with another sample, without
/// asking again.
pub proof fn failed_requests_are_recorded(
    progress: Progress,
    manifest: DetectionManifest,
    base_url: Seq<char>,
    error: VlmError,
)
    requires
        progress.valid(manifest),
        progress.wait is FirstReply || progress.wait is SecondReply,
        !(error is Unreachable),
    ensures
        ({
            let event = Event::Answered(Verdict::Failed(error));
            let next = progress.after(manifest, base_url, event);
            &&& next.results.len() == progress.results.len() + 1
            &&& next.results.drop_last() == progress.results
            &&& next.results.last().keys() == set!["timestamp"@, "error"@]
            &&& next.results.last().entry("timestamp"@) == JsonView::Str(
                manifest.samples@[progress.sample].timestamp@,
            )
            &&& next.results.last().entry("error"@) == JsonView::Str(
                match error {
                    VlmError::Request(reason) => "VLM request failed: "@ + reason@,
                    VlmError::MalformedJson(reply) => "VLM returned malformed JSON after retry: "@
                        + reply@,
                    VlmError::Unreachable(reason) => "VLM server unreachable: "@ + reason@,
                },
            )
            &&& next.vlm_errors == progress.vlm_errors + 1
            &&& next.sample > progress.sample
            &&& !(next.wait is Aborted)
        }),
{
    let event = Event::Answered(Verdict::Failed(error));
    one_event(progress, manifest, base_url, event);
    let next = progress.after(manifest, base_url, event);
    assert(next.results.drop_last() =~= progress.results);
    analysis::recorded_failures_name_their_timestamp(
        manifest.samples@[progress.sample].timestamp@,
        error@.message(),
    );
}

/// Law: a first reply without an object is answered with the second request about
/// the same crops, and nothing is recorded. A second one is recorded as one
/// failure that repeats its first 300 characters, and the sample is done.
pub proof fn replies_without_an_object(
    progress: Progress,
    manifest: DetectionManifest,
    base_url: Seq<char>,
    reply: String,
)
    requires
        progress.valid(manifest),
        progress.wait is FirstReply || progress.wait is SecondReply,
    ensures
        ({
            let event = Event::Answered(Verdict::Unparsed(reply));
            let next = progress.after(manifest, base_url, event);
            &&& progress.wait is FirstReply ==> {
                &&& next.wait == WaitView::SecondReply(reply@)
                &&& next.sample == progress.sample
                &&& next.face == progress.face
                &&& next.crops == progress.crops
                &&& next.results == progress.results
                &&& next.vlm_errors == progress.vlm_errors
            }
            &&& progress.wait is SecondReply ==> {
                &&& next.results.len() == progress.results.len() + 1
                &&& next.results.drop_last() == progress.results
                &&& next.results.last().keys() == set!["timestamp"@, "error"@]
                &&& next.results.last().entry("timestamp"@) == JsonView::Str(
                    manifest.samples@[progress.sample].timestamp@,
                )
                &&& next.results.last().entry("error"@) == JsonView::Str(
                    "VLM returned malformed JSON after retry: "@ + (if reply@.len() <= 300 {
                        reply@
                    } else {
                        reply@.take(300)
                    }),
                )
                &&& next.vlm_errors == progress.vlm_errors + 1
                &&& next.sample > progress.sample
                &&& !(next.wait is Aborted)
            }
        }),
{
    let event = Event::Answered(Verdict::Unparsed(reply));
    one_event(progress, manifest, base_url, event);
    let next = progress.after(manifest, base_url, event);
    if progress.wait is SecondReply {
        assert(next.results.drop_last() =~= progress.results);
        analysis::recorded_failures_name_their_timestamp(
            manifest.samples@[progress.sample].timestamp@,
            "VLM returned malformed JSON after retry: "@ + text::excerpt(reply@),
        );
    }
}

/// Law: a server that cannot be reached ends the run, whichever request it was
/// about, with an error that names the configured address and what to check.
/// Nothing is recorded or counted.
pub proof fn an_unreachable_server_is_named(
    progress: Progress,
    manifest: DetectionManifest,
    base_url: Seq<char>,
    error: String,
)
    ensures
        ({
            let event = Event::Answered(Verdict::Failed(VlmError::Unreachable(error)));
            let next = progress.after(manifest, base_url, event);
            &&& next.wait == WaitView::Aborted(
                "VLM server at "@ + base_url + " unreachable: "@ + error@
                    + ". Check video_analysis.vlm.base_url and that the server is running."@,
            )
            &&& next.results == progress.results
            &&& next.vlm_errors == progress.vlm_errors
            &&& next.sample == progress.sample
        }),
{
}

/// Law: a run starts with nothing recorded, at the first sample that has a face.
pub proof fn runs_start_with_nothing(manifest: DetectionManifest)
    ensures
        ({
            let started = Progress::initial().settled(manifest);
            &&& started.results.len() == 0
            &&& started.vlm_errors == 0
            &&& started.crops.len() == 0
            &&& started.face == 0
            &&& 0 <= started.sample <= manifest.samples@.len()
            &&& forall|i: int|
                0 <= i < started.sample ==> (#[trigger] manifest.samples@[i]).faces@.len() == 0
            &&& started.sample < manifest.samples@.len() ==> started.wait is Crop
                && manifest.samples@[started.sample].faces@.len() > 0
            &&& started.sample == manifest.samples@.len() ==> started.wait is Done
        }),
{
    lemma_settled(Progress::initial(), manifest);
    let started = Progress::initial().settled(manifest);
    if started.sample > 0 {
        assert(manifest.samples@[0].faces@.len() == 0);
    }
}

/// Law: what a run waits for, unless it ended early. It waits for a crop as long
/// as the sample at work has one that was not read, then for a reply about the
/// crops that were, and for nothing once every sample is done.
pub proof fn what_a_run_waits_for(
    manifest: DetectionManifest,
    base_url: Seq<char>,
    events: Seq<Event>,
)
    requires
        is_run(manifest, base_url, events),
        !(progress_after(manifest, base_url, events).wait is Aborted),
    ensures
        ({
            let now = progress_after(manifest, base_url, events);
            let sample = manifest.samples@[now.sample];
            let reads = reads_of(manifest, base_url, events, now.sample);
            &&& 0 <= now.sample <= manifest.samples@.len()
            &&& now.wait is Done <==> now.sample == manifest.samples@.len()
            &&& now.wait is Crop <==> now.sample < manifest.samples@.len() && reads.len()
                < sample.faces@.len()
            &&& now.wait is FirstReply || now.wait is SecondReply <==> now.sample
                < manifest.samples@.len() && reads.len() == sample.faces@.len()
            &&& now.wait is FirstReply || now.wait is SecondReply ==> crops_read(
                sample,
                reads,
            ).len() > 0
            &&& now.wait is FirstReply ==> events.len() > 0 && events.last() is CropRead
            &&& now.wait matches WaitView::SecondReply(first) ==> events.len() > 0
                && progress_after(manifest, base_url, events.drop_last()).wait is FirstReply
                && (events.last() matches Event::Answered(Verdict::Unparsed(reply)) && reply@
                == first)
        }),
{
    runs_stay_valid(manifest, base_url, events);
    requests_carry_the_crops_of_their_sample(manifest, base_url, events);
    if events.len() == 0 {
        lemma_settled(Progress::initial(), manifest);
    } else {
        runs_stay_valid(manifest, base_url, events.drop_last());
        one_event(
            progress_after(manifest, base_url, events.drop_last()),
            manifest,
            base_url,
            events.last(),
        );
    }
}

/// Law: the crops of a sample are read in the order of its faces, each at its own
/// path.
pub proof fn crops_are_read_in_order(
    manifest: DetectionManifest,
    base_url: Seq<char>,
    events: Seq<Event>,
    action: Action,
)
    requires
        is_run(manifest, base_url, events),
        progress_after(manifest, base_url, events).calls_for(manifest, action),
    ensures
        action matches Action::ReadCrop { path } ==> {
            let now = progress_after(manifest, base_url, events);
            let reads = reads_of(manifest, base_url, events, now.sample);
            &&& now.sample < manifest.samples@.len()
            &&& reads.len() < manifest.samples@[now.sample].faces@.len()
            &&& path@ == manifest.samples@[now.sample].faces@[reads.len() as int].crop_path@
        },
{
    runs_stay_valid(manifest, base_url, events);
    requests_carry_the_crops_of_their_sample(manifest, base_url, events);
}

/// Which faces the crops of a sample are of: all those that could be read, in
/// order.
proof fn lemma_faces_of_crops(
    sample: DetectionSample,
    reads: Seq<Result<Vec<u8>, String>>,
) -> (faces: Seq<int>)
    ensures
        faces.len() == crops_read(sample, reads).len(),
        forall|k: int|
            0 <= k < faces.len() ==> 0 <= #[trigger] faces[k] < reads.len() && (reads[faces[k]]
                matches Ok(bytes) && crops_read(sample, reads)[k] == (
                sample.faces@[faces[k]].face_id,
                encoding::base64_text(bytes@),
            )),
        forall|j: int, k: int| 0 <= j < k < faces.len() ==> faces[j] < faces[k],
        forall|i: int| 0 <= i < reads.len() && (#[trigger] reads[i]) is Ok ==> faces.contains(i),
    decreases reads.len(),
{
    if reads.len() == 0 {
        Seq::<int>::empty()
    } else {
        let last = reads.len() - 1;
        let earlier = lemma_faces_of_crops(sample, reads.drop_last());
        let faces = if reads.last() is Ok {
            earlier.push(last)
        } else {
            earlier
        };
        assert forall|k: int| 0 <= k < faces.len() implies 0 <= #[trigger] faces[k] < reads.len()
            && (reads[faces[k]] matches Ok(bytes) && crops_read(sample, reads)[k] == (
            sample.faces@[faces[k]].face_id,
            encoding::base64_text(bytes@),
        )) by {
            if k < earlier.len() {
                assert(faces[k] == earlier[k]);
                assert(reads[faces[k]] == reads.drop_last()[earlier[k]]);
                assert(crops_read(sample, reads)[k] == crops_read(sample, reads.drop_last())[k]);
            }
        }
        assert forall|j: int, k: int| 0 <= j < k < faces.len() implies faces[j] < faces[k] by {
            assert(faces[j] == earlier[j]);
            if k < earlier.len() {
                assert(faces[k] == earlier[k]);
            }
        }
        assert forall|i: int| 0 <= i < reads.len() && (#[trigger] reads[i]) is Ok implies faces.contains(
            i,
        ) by {
            if i < last {
                assert(reads.drop_last()[i] == reads[i]);
                assert(earlier.contains(i));
                let k = choose|k: int| 0 <= k < earlier.len() && earlier[k] == i;
                assert(faces[k] == i);
            } else {
                assert(faces[earlier.len() as int] == i);
            }
        }
        faces
    }
}

/// Law: whenever a request is called for, its user message shows every crop of
/// the sample at work that could be read, and nothing but them. Behind the words
/// stands one picture for each such face, in the order of the faces: the data URL
/// of the base64 text of the bytes that were read for that face. The words give
/// the timestamp of the sample, how many pictures there are, and their faces.
///
/// The result lists the faces shown, by their positions in the sample.
pub proof fn requests_show_every_crop_that_was_read(
    manifest: DetectionManifest,
    base_url: Seq<char>,
    events: Seq<Event>,
    action: Action,
) -> (faces: Seq<int>)
    requires
        is_run(manifest, base_url, events),
        progress_after(manifest, base_url, events).calls_for(manifest, action),
    ensures
        action matches Action::PostChat { messages } ==> {
            let now = progress_after(manifest, base_url, events);
            let sample = manifest.samples@[now.sample];
            let reads = reads_of(manifest, base_url, events, now.sample);
            let crops = crops_read(sample, reads);
            let content = json::value_tree(messages@[1]).entry("content"@);
            &&& messages@.len() >= 2
            &&& reads.len() == sample.faces@.len()
            &&& faces.len() == crops.len()
            &&& content matches JsonView::Array(items) && items.len() == 1 + crops.len()
            &&& forall|k: int|
                0 <= k < crops.len() ==> (#[trigger] content.item(k + 1)).entry(
                    "image_url"@,
                ).entry("url"@) == JsonView::Str("data:image/jpeg;base64,"@ + crops[k].1)
            &&& forall|k: int|
                #![trigger faces[k]]
                0 <= k < faces.len() ==> 0 <= faces[k] < reads.len() && (reads[faces[k]] matches Ok(
                    bytes,
                ) && content.item(k + 1).entry("image_url"@).entry("url"@) == JsonView::Str(
                    "data:image/jpeg;base64,"@ + encoding::base64_text(bytes@),
                ))
            &&& forall|j: int, k: int| 0 <= j < k < faces.len() ==> faces[j] < faces[k]
            &&& forall|i: int|
                0 <= i < reads.len() && (#[trigger] reads[i]) is Ok ==> faces.contains(i)
            &&& content.item(0).entry("text"@) == JsonView::Str(
                "Video timestamp "@ + sample.timestamp@ + ": "@ + text::decimal(crops.len())
                    + " cropped face(s) follow, in face_id order ("@ + chat::face_list(crops)
                    + "). Analyze them per the schema, using this exact timestamp value."@,
            )
        },
{
    let now = progress_after(manifest, base_url, events);
    let reads = reads_of(manifest, base_url, events, now.sample);
    runs_stay_valid(manifest, base_url, events);
    requests_carry_the_crops_of_their_sample(manifest, base_url, events);
    analysis::requests_show_what_is_kept(now, manifest, action);
    lemma_faces_of_crops(manifest.samples@[now.sample], reads)
}

/// Law: a run is concluded only once every sample is done, and called off only
/// for a server that could not be reached, which the error names.
pub proof fn how_a_run_is_concluded(
    manifest: DetectionManifest,
    base_url: Seq<char>,
    events: Seq<Event>,
    action: Action,
)
    requires
        is_run(manifest, base_url, events),
        progress_after(manifest, base_url, events).calls_for(manifest, action),
    ensures
        action is Conclude ==> progress_after(manifest, base_url, events).sample
            == manifest.samples@.len(),
        action matches Action::Abort { error } ==> events.len() > 0 && (events.last() matches
            Event::Answered(Verdict::Failed(VlmError::Unreachable(reason))) && error@
            == "VLM server at "@ + base_url + " unreachable: "@ + reason@
            + ". Check video_analysis.vlm.base_url and that the server is running."@),
{
    runs_stay_valid(manifest, base_url, events);
    if action is Abort {
        only_an_unreachable_server_ends_a_run_early(manifest, base_url, events);
        if let Event::Answered(Verdict::Failed(VlmError::Unreachable(reason))) = events.last() {
            an_unreachable_server_is_named(
                progress_after(manifest, base_url, events.drop_last()),
                manifest,
                base_url,
                reason,
            );
        }
    }
}

} // verus!
