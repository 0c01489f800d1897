//! The sink: its settings, and the state machine of `start`, `render` and
//! `stop`.
//!
//! The sink works one frame at a time. `render` hands the caller the upload
//! task of the frame, and the caller performs it, retries included, before
//! it calls the sink again: rendering blocks the pipeline until the frame is
//! stored or given up. No upload runs in the background, so the sink keeps no
//! list of uploads in flight, and `stop` has nothing to wait for.
//!
//! The calls that reach the storage service are the caller's. The sink is
//! told their outcome: `start` takes the service's answer to the request to
//! create the bucket, and the task reports the end of its upload.

use crate::error::SinkError;
use crate::provision::{
    create_bucket_if_extant, provision_error, provisioned, BucketError, BucketRequest,
};
use crate::region::{canonical_region, region_name};
use crate::upload::{
    make_object_key, object_key, Frame, UploadRequest, UploadTask, MAX_ATTEMPTS,
};
use vstd::prelude::*;

verus! {

/// Where frames go: the bucket, the prefix of every key, and the region of
/// the storage service. Bucket and prefix may be unset.
#[derive(Clone, Debug, PartialEq, Eq)]
pub struct Settings {
    pub bucket: Option<String>,
    pub key: Option<String>,
    pub region: String,
}

/// Whether the sink takes frames, and how many it has taken.
#[derive(Clone, Copy, PartialEq, Eq, Structural, Debug)]
pub enum State {
    Stopped,
    /// `frame_num` is the sequence number of the last frame rendered since
    /// the sink was started, zero before the first.
    Started { frame_num: u64 },
}

/// The text of a setting that may be unset.
pub open spec fn text_of(setting: Option<String>) -> Option<Seq<char>> {
    match setting {
        Some(text) => Some(text@),
        None => None,
    }
}

/// The settings as texts.
pub struct SettingsView {
    pub bucket: Option<Seq<char>>,
    pub key: Option<Seq<char>>,
    pub region: Seq<char>,
}

impl View for Settings {
    type V = SettingsView;

    open spec fn view(&self) -> SettingsView {
        SettingsView {
            bucket: text_of(self.bucket),
            key: text_of(self.key),
            region: self.region@,
        }
    }
}

/// A sink as its callers see it.
pub struct SinkView {
    pub settings: SettingsView,
    pub state: State,
}

impl State {
    /// The state after `start`, given the service's answer to the request to
    /// create the bucket: a stopped sink starts, with no frame rendered, if
    /// the bucket is there; in every other case the state stays.
    pub open spec fn after_start(self, created: Result<(), BucketError>) -> State {
        if self is Stopped && provisioned(created) {
            State::Started { frame_num: 0 }
        } else {
            self
        }
    }

    /// What `start` returns.
    pub open spec fn start_result(self, created: Result<(), BucketError>) -> Result<
        (),
        SinkError,
    > {
        if self is Started {
            Err(SinkError::AlreadyStarted)
        } else if provisioned(created) {
            Ok(())
        } else {
            Err(provision_error(created))
        }
    }

    /// The state after `render`: a started sink has counted one more frame,
    /// whether or not the frame can be uploaded.
    pub open spec fn after_render(self) -> State {
        match self {
            State::Stopped => State::Stopped,
            State::Started { frame_num } => State::Started { frame_num: (frame_num + 1) as u64 },
        }
    }

    /// The state after `count` calls of `render`.
    pub open spec fn after_renders(self, count: nat) -> State
        decreases count,
    {
        if count == 0 {
            self
        } else {
            self.after_renders((count - 1) as nat).after_render()
        }
    }

    /// The sequence number that `render` gives the frame it is called with.
    pub open spec fn next_sequence_number(self) -> nat
        recommends
            self is Started,
    {
        (self->frame_num + 1) as nat
    }

    /// The state after `stop`.
    pub open spec fn after_stop(self) -> State {
        State::Stopped
    }

    /// What `stop` returns.
    pub open spec fn stop_result(self) -> Result<(), SinkError> {
        if self is Stopped {
            Err(SinkError::NotStarted)
        } else {
            Ok(())
        }
    }
}

/// A started sink counts every frame rendered: from a state in which
/// `frame_num` frames were rendered, `count` calls of `render` lead to the
/// state in which `frame_num + count` were.
pub proof fn lemma_renders_count(frame_num: u64, count: nat)
    requires
        frame_num + count <= u64::MAX,
    ensures
        (State::Started { frame_num }).after_renders(count) == (State::Started {
            frame_num: (frame_num + count) as u64,
        }),
    decreases count,
{
    if count > 0 {
        lemma_renders_count(frame_num, (count - 1) as nat);
    }
}

/// The frames rendered after a start are numbered one, two, three and so
/// on: the call of `render` that follows `count` earlier ones gives its frame
/// the number `count + 1`, one more than the call before it gave. What became
/// of the earlier frames plays no part.
pub proof fn lemma_sequence_numbers(created: Result<(), BucketError>, count: nat)
    requires
        provisioned(created),
        count < u64::MAX,
    ensures
        State::Stopped.after_start(created).after_renders(count) is Started,
        State::Stopped.after_start(created).after_renders(count).next_sequence_number() == count
            + 1,
{
    lemma_renders_count(0, count);
}

/// A sink that was started refuses every further `start` until it is
/// stopped, however many frames it has rendered since and whatever the
/// service answers, and is left as it was.
pub proof fn lemma_start_twice(
    state: State,
    first: Result<(), BucketError>,
    rendered: nat,
    second: Result<(), BucketError>,
)
    requires
        state.start_result(first) is Ok,
        rendered <= u64::MAX,
    ensures
        ({
            let before = state.after_start(first).after_renders(rendered);
            &&& before.start_result(second) == Err::<(), SinkError>(SinkError::AlreadyStarted)
            &&& before.after_start(second) == before
        }),
{
    lemma_renders_count(0, rendered);
}

/// A stopped sink refuses `stop` with `NotStarted` and stays stopped; so
/// does every sink that was just stopped.
pub proof fn lemma_stop_when_stopped(state: State)
    ensures
        State::Stopped.stop_result() == Err::<(), SinkError>(SinkError::NotStarted),
        State::Stopped.after_stop() == State::Stopped,
        state.after_stop().stop_result() == Err::<(), SinkError>(SinkError::NotStarted),
{
}

/// A bucket that the caller owns already does not keep the sink from
/// starting.
pub proof fn lemma_owned_bucket_starts()
    ensures
        State::Stopped.start_result(Err(BucketError::AlreadyOwnedByYou)) is Ok,
        State::Stopped.after_start(Err(BucketError::AlreadyOwnedByYou)) == (State::Started {
            frame_num: 0,
        }),
{
}

/// The sink.
pub struct S3MultiFrameSink {
    settings: Settings,
    state: State,
}

impl View for S3MultiFrameSink {
    type V = SinkView;

    closed spec fn view(&self) -> SinkView {
        SinkView { settings: self.settings@, state: self.state }
    }
}

impl S3MultiFrameSink {
    /// A stopped sink for the region given, with bucket and key prefix
    /// unset.
    pub fn new(region: String) -> (sink: Self)
        ensures
            sink@ == (SinkView {
                settings: SettingsView { bucket: None, key: None, region: region@ },
                state: State::Stopped,
            }),
    {
        S3MultiFrameSink {
            settings: Settings { bucket: None, key: None, region },
            state: State::Stopped,
        }
    }

    /// The settings of the sink.
    pub fn settings(&self) -> (settings: &Settings)
        ensures
            settings@ == self@.settings,
    {
        &self.settings
    }

    /// The state of the sink.
    pub fn state(&self) -> (state: State)
        ensures
            state == self@.state,
    {
        self.state
    }

    /// Sets or unsets the bucket.
    pub fn set_bucket(&mut self, bucket: Option<String>)
        ensures
            final(self)@ == (SinkView {
                settings: SettingsView { bucket: text_of(bucket), ..old(self)@.settings },
                ..old(self)@
            }),
    {
        self.settings.bucket = bucket;
    }

    /// Sets or unsets the prefix of the keys.
    pub fn set_key(&mut self, key: Option<String>)
        ensures
            final(self)@ == (SinkView {
                settings: SettingsView { key: text_of(key), ..old(self)@.settings },
                ..old(self)@
            }),
    {
        self.settings.key = key;
    }

    /// Sets the region to the one that `text` names. A text that names no
    /// region is refused with `InvalidRegion`, and the sink stays as it is.
    pub fn set_region(&mut self, text: &str) -> (result: Result<(), SinkError>)
        ensures
            Self::is_region_set(result, old(self)@, final(self)@, text@, canonical_region(text@)),
    {
        self.apply_region(text, region_name(text))
    }

    /// Whether `result` and `after` are what setting the region comes to
    /// for a sink `before`, when the text given is `text` and names the
    /// region `canonical`, or none: the sink's region becomes the region
    /// named and nothing else changes, or the text is refused and nothing
    /// changes at all.
    pub open spec fn is_region_set(
        result: Result<(), SinkError>,
        before: SinkView,
        after: SinkView,
        text: Seq<char>,
        canonical: Option<Seq<char>>,
    ) -> bool {
        match canonical {
            Some(name) => {
                &&& result is Ok
                &&& after == (SinkView {
                    settings: SettingsView { region: name, ..before.settings },
                    ..before
                })
            },
            None => {
                &&& result matches Err(SinkError::InvalidRegion(refused))
                &&& refused@ == text
                &&& after == before
            },
        }
    }

    /// Sets the region to `canonical`, the name of the region that `text`
    /// was read as, or refuses the text if it was read as none.
    pub fn apply_region(&mut self, text: &str, canonical: Option<String>) -> (result: Result<
        (),
        SinkError,
    >)
        ensures
            Self::is_region_set(result, old(self)@, final(self)@, text@, text_of(canonical)),
    {
        match canonical {
            Some(name) => {
                self.settings.region = name;
                Ok(())
            },
            None => Err(SinkError::InvalidRegion(String::from_str(text))),
        }
    }

    /// The request that creates the sink's bucket in the sink's region, if a
    /// bucket is set.
    pub fn create_bucket_request(&self) -> (request: Option<BucketRequest>)
        ensures
            self@.settings.bucket is None ==> request is None,
            self@.settings.bucket matches Some(bucket) ==> (request matches Some(r) && r.bucket@
                == bucket && r.location_constraint@ == self@.settings.region),
    {
        match &self.settings.bucket {
            Some(bucket) => Some(
                BucketRequest {
                    bucket: bucket.clone(),
                    location_constraint: self.settings.region.clone(),
                },
            ),
            None => None,
        }
    }

    /// Starts the sink, given the service's answer to the request to create
    /// the bucket. A started sink refuses with `AlreadyStarted`. A stopped
    /// sink starts, with no frame rendered yet, if the bucket was created or
    /// is the caller's own already; on any other answer it stays stopped and
    /// reports the provisioning error. The settings stay as they are.
    pub fn start(&mut self, created: Result<(), BucketError>) -> (result: Result<(), SinkError>)
        ensures
            result == old(self)@.state.start_result(created),
            final(self)@ == (SinkView {
                state: old(self)@.state.after_start(created),
                ..old(self)@
            }),
    {
        if let State::Started { .. } = self.state {
            return Err(SinkError::AlreadyStarted);
        }
        match create_bucket_if_extant(created) {
            Ok(()) => {
                self.state = State::Started { frame_num: 0 };
                Ok(())
            },
            Err(error) => Err(error),
        }
    }

    /// Stops the sink. A stopped sink refuses with `NotStarted`; a started
    /// one becomes stopped. The settings stay as they are.
    pub fn stop(&mut self) -> (result: Result<(), SinkError>)
        ensures
            result == old(self)@.state.stop_result(),
            final(self)@ == (SinkView { state: old(self)@.state.after_stop(), ..old(self)@ }),
    {
        if let State::Stopped = self.state {
            return Err(SinkError::NotStarted);
        }
        self.state = State::Stopped;
        Ok(())
    }

    /// Takes one frame from the pipeline: `buffer` holds the frame's bytes,
    /// or nothing if they could not be read.
    ///
    /// A stopped sink refuses with `NotStarted` and stays as it is. A
    /// started sink first counts the frame, so that no sequence number is
    /// given twice whatever becomes of the frame. It then reports
    /// `BufferMap` if there are no bytes, `NotConfigured` if the bucket or
    /// the key prefix is unset, and else hands out the upload task of the
    /// frame.
    pub fn render(&mut self, buffer: Option<Vec<u8>>) -> (result: Result<UploadTask, SinkError>)
        requires
            old(self)@.state matches State::Started { frame_num } ==> frame_num < u64::MAX,
        ensures
            final(self)@ == (SinkView { state: old(self)@.state.after_render(), ..old(self)@ }),
            old(self)@.state is Stopped ==> result == Err::<UploadTask, SinkError>(
                SinkError::NotStarted,
            ),
            old(self)@.state is Started && buffer is None ==> result == Err::<
                UploadTask,
                SinkError,
            >(SinkError::BufferMap),
            old(self)@.state is Started && buffer is Some ==> Self::is_upload_of(
                result,
                old(self)@.settings,
                old(self)@.state.next_sequence_number(),
                buffer->Some_0@,
            ),
    {
        let sequence_number: u64 = match self.state {
            State::Stopped => {
                return Err(SinkError::NotStarted);
            },
            State::Started { frame_num } => frame_num + 1,
        };
        self.state = State::Started { frame_num: sequence_number };
        match buffer {
            None => Err(SinkError::BufferMap),
            Some(bytes) => self.upload_image_frame(Frame { sequence_number, bytes }),
        }
    }

    /// Whether `result` is what the upload of a frame with the given number
    /// and bytes comes to under `settings`: `NotConfigured` if bucket or key
    /// prefix is unset, else the task with the frame's number, the budget of
    /// retries, and the request that stores the bytes in the bucket under
    /// the frame's key.
    pub open spec fn is_upload_of(
        result: Result<UploadTask, SinkError>,
        settings: SettingsView,
        sequence_number: nat,
        bytes: Seq<u8>,
    ) -> bool {
        if settings.bucket is None || settings.key is None {
            result == Err::<UploadTask, SinkError>(SinkError::NotConfigured)
        } else {
            &&& result matches Ok(task)
            &&& task.frame_num == sequence_number
            &&& task.max_attempts == MAX_ATTEMPTS
            &&& task.request.bucket@ == settings.bucket->Some_0
            &&& task.request.key@ == object_key(settings.key->Some_0, sequence_number)
            &&& task.request.body@ == bytes
        }
    }

    /// Makes the upload task of a frame from the sink's settings. The frame
    /// is used up.
    pub fn upload_image_frame(&self, frame: Frame) -> (result: Result<UploadTask, SinkError>)
        ensures
            Self::is_upload_of(
                result,
                self@.settings,
                frame.sequence_number as nat,
                frame.bytes@,
            ),
    {
        match (&self.settings.bucket, &self.settings.key) {
            (Some(bucket), Some(key)) => Ok(
                UploadTask {
                    frame_num: frame.sequence_number,
                    max_attempts: MAX_ATTEMPTS,
                    request: Self::create_put_object_request(
                        frame.sequence_number,
                        frame.bytes,
                        bucket.as_str(),
                        key.as_str(),
                    ),
                },
            ),
            _ => Err(SinkError::NotConfigured),
        }
    }

    /// The request that stores `vec` in `bucket` as frame `frame_count` under
    /// the prefix `key`.
    pub fn create_put_object_request(
        frame_count: u64,
        vec: Vec<u8>,
        bucket: &str,
        key: &str,
    ) -> (request: UploadRequest)
        ensures
            request.bucket@ == bucket@,
            request.key@ == object_key(key@, frame_count as nat),
            request.body@ == vec@,
    {
        UploadRequest {
            bucket: String::from_str(bucket),
            key: make_object_key(key, frame_count),
            body: vec,
        }
    }
}

} // verus!
