//! The stream processor: a capture-driving context.
//!
//! A processor owns a modeled capture source and a display state, is
//! configured like a scanner, and drives decoding either frame by frame
//! from its source (`process_one`) or synchronously on one supplied image
//! (`process_image`). The capture source is virtual: frames are queued by
//! the caller, and a device name passed to `init` selects no real
//! hardware.

use vstd::prelude::*;
use crate::config::{SymbologyConfig, SymbologyConfigModel, ZBarConfig, ZBarSymbolType};
use crate::format::Format;
use crate::img::{ImageModel, ZBarImage};
use crate::image_scanner::{fresh_config, scan_records, scan_results};
use crate::symbol::SymbolModel;
use crate::symbol_set::ZBarSymbolSet;
use crate::{ZBarErrorType, ZBarResult};

verus! {

/// The spec-level state of a processor.
pub ghost struct ProcessorModel {
    /// Whether the engine was asked to run its own capture thread.
    pub threaded: bool,
    /// Which symbologies are decoded, and recorded tuning.
    pub config: SymbologyConfigModel,
    /// The attached user metadata, if any.
    pub userdata: Option<Seq<u8>>,
    /// Whether the metadata was handed in owned (as opposed to borrowed).
    pub userdata_owned: bool,
    /// Whether a capture source has been attached.
    pub initialized: bool,
    /// Whether a display window was requested at `init`.
    pub display: bool,
    /// Whether the display window is visible.
    pub visible: bool,
    /// Whether capture is active.
    pub active: bool,
    /// The size negotiated with the source, if requested.
    pub size_request: Option<(u32, u32)>,
    /// The interface version negotiated, if requested.
    pub interface_version: Option<i32>,
    /// The I/O mode negotiated, if requested.
    pub iomode: Option<i32>,
    /// The forced input/output pixel formats, if requested.
    pub format_request: Option<(Format, Format)>,
    /// The frames the virtual capture source will deliver, in order.
    pub frames: Seq<ImageModel>,
    /// The named device controls set so far; the last entry of a name
    /// wins.
    pub controls: Seq<(Seq<char>, i32)>,
    /// The results of the latest decode, if any.
    pub results: Option<Seq<SymbolModel>>,
}

/// The spec-level states of a control log.
pub open spec fn control_views(s: Seq<(String, i32)>) -> Seq<(Seq<char>, i32)> {
    s.map_values(|p: (String, i32)| (p.0@, p.1))
}

/// The value of a named control: the last entry of that name, if any.
pub open spec fn control_lookup(controls: Seq<(Seq<char>, i32)>, name: Seq<char>) -> Option<i32>
    decreases controls.len(),
{
    if controls.len() == 0 {
        None
    } else if controls.last().0 == name {
        Some(controls.last().1)
    } else {
        control_lookup(controls.drop_last(), name)
    }
}

/// The index of the first frame whose scan reports something, at or after
/// `i`; the sequence's length when no frame does.
pub open spec fn first_hit_from(
    frames: Seq<ImageModel>,
    config: SymbologyConfigModel,
    i: int,
) -> int
    decreases frames.len() - i,
{
    if i < 0 || i >= frames.len() {
        frames.len() as int
    } else if scan_results(frames[i].encoded, config, false, Seq::empty()).len() > 0 {
        i
    } else {
        first_hit_from(frames, config, i + 1)
    }
}

/// A processing context: configuration, a virtual capture source, display
/// state, user metadata, named controls, and the latest results.
pub struct Processor {
    threaded: bool,
    config: SymbologyConfig,
    userdata: Option<Vec<u8>>,
    userdata_owned: bool,
    initialized: bool,
    display: bool,
    visible: bool,
    active: bool,
    size_request: Option<(u32, u32)>,
    interface_version: Option<i32>,
    iomode: Option<i32>,
    format_request: Option<(Format, Format)>,
    frames: Vec<ZBarImage>,
    controls: Vec<(String, i32)>,
    results: Option<ZBarSymbolSet>,
}

/// The spec-level states of a frame queue.
pub open spec fn frame_views(s: Seq<ZBarImage>) -> Seq<ImageModel> {
    s.map_values(|f: ZBarImage| f@)
}

impl View for Processor {
    type V = ProcessorModel;

    closed spec fn view(&self) -> ProcessorModel {
        ProcessorModel {
            threaded: self.threaded,
            config: self.config@,
            userdata: match self.userdata {
                Some(ref d) => Some(d@),
                None => None,
            },
            userdata_owned: self.userdata_owned,
            initialized: self.initialized,
            display: self.display,
            visible: self.visible,
            active: self.active,
            size_request: self.size_request,
            interface_version: self.interface_version,
            iomode: self.iomode,
            format_request: self.format_request,
            frames: frame_views(self.frames@),
            controls: control_views(self.controls@),
            results: match self.results {
                Some(ref s) => Some(s@),
                None => None,
            },
        }
    }
}

/// The state a fresh processor starts from: every symbology disabled,
/// nothing attached, requested or decoded.
pub open spec fn fresh_processor(threaded: bool) -> ProcessorModel {
    ProcessorModel {
        threaded,
        config: fresh_config(),
        userdata: None,
        userdata_owned: false,
        initialized: false,
        display: false,
        visible: false,
        active: false,
        size_request: None,
        interface_version: None,
        iomode: None,
        format_request: None,
        frames: Seq::empty(),
        controls: Seq::empty(),
        results: None,
    }
}

impl Processor {
    /// Creates a processor with every symbology disabled and no source
    /// attached. The flag asks the engine to run its own capture thread;
    /// the model keeps it as configuration.
    pub fn new(threaded: bool) -> (r: Processor)
        ensures
            r@ == fresh_processor(threaded),
    {
        let r = Processor {
            threaded,
            config: SymbologyConfig::with_base(false),
            userdata: None,
            userdata_owned: false,
            initialized: false,
            display: false,
            visible: false,
            active: false,
            size_request: None,
            interface_version: None,
            iomode: None,
            format_request: None,
            frames: Vec::new(),
            controls: Vec::new(),
            results: None,
        };
        proof {
            assert(frame_views(r.frames@) =~= Seq::<ImageModel>::empty());
            assert(control_views(r.controls@) =~= Seq::<(Seq<char>, i32)>::empty());
        }
        r
    }

    /// A builder that accumulates configuration and produces a configured
    /// processor in one step.
    pub fn builder() -> (r: ProcessorBuilder)
        ensures
            r@ == ProcessorBuilder::fresh_builder(),
    {
        ProcessorBuilder::new()
    }

    /// Attaches the capture source and chooses whether a display window
    /// exists. The source of the model is virtual — a device name selects
    /// no real hardware — so attaching always succeeds; frames are handed
    /// in through `queue_frame`.
    pub fn init(&mut self, _video_device: &str, enable_display: bool) -> (r: ZBarResult<()>)
        ensures
            r is Ok,
            final(self)@ == (ProcessorModel {
                initialized: true,
                display: enable_display,
                ..old(self)@
            }),
    {
        self.initialized = true;
        self.display = enable_display;
        Ok(())
    }

    /// Queues one frame for the virtual capture source to deliver.
    pub fn queue_frame(&mut self, image: ZBarImage)
        ensures
            final(self)@ == (ProcessorModel {
                frames: old(self)@.frames.push(image@),
                ..old(self)@
            }),
    {
        self.frames.push(image);
        proof {
            assert(frame_views(self.frames@) =~= frame_views(old(self).frames@).push(
                self.frames@.last()@,
            ));
        }
    }

    /// Requests a capture size from the source. The virtual source
    /// accepts any size.
    pub fn request_size(&mut self, width: u32, height: u32) -> (r: ZBarResult<()>)
        ensures
            r is Ok,
            final(self)@ == (ProcessorModel {
                size_request: Some((width, height)),
                ..old(self)@
            }),
    {
        self.size_request = Some((width, height));
        Ok(())
    }

    /// Requests an interface version from the source. The virtual source
    /// accepts any version.
    pub fn request_interface(&mut self, version: i32) -> (r: ZBarResult<()>)
        ensures
            r is Ok,
            final(self)@ == (ProcessorModel {
                interface_version: Some(version),
                ..old(self)@
            }),
    {
        self.interface_version = Some(version);
        Ok(())
    }

    /// Requests an I/O mode from the source. The virtual source accepts
    /// any mode.
    pub fn request_iomode(&mut self, iomode: i32) -> (r: ZBarResult<()>)
        ensures
            r is Ok,
            final(self)@ == (ProcessorModel { iomode: Some(iomode), ..old(self)@ }),
    {
        self.iomode = Some(iomode);
        Ok(())
    }

    /// Forces the input and output pixel formats. The virtual source
    /// accepts any pair.
    pub fn force_format(&mut self, input_format: Format, output_format: Format) -> (r: ZBarResult<
        (),
    >)
        ensures
            r is Ok,
            final(self)@ == (ProcessorModel {
                format_request: Some((input_format, output_format)),
                ..old(self)@
            }),
    {
        self.format_request = Some((input_format, output_format));
        Ok(())
    }

    /// Attaches owned user metadata, or detaches it.
    pub fn set_userdata(&mut self, userdata: Option<Vec<u8>>)
        ensures
            final(self)@ == (ProcessorModel {
                userdata: match userdata {
                    Some(d) => Some(d@),
                    None => None::<Seq<u8>>,
                },
                userdata_owned: true,
                ..old(self)@
            }),
    {
        self.userdata = userdata;
        self.userdata_owned = true;
    }

    /// Attaches user metadata handed in owned, or detaches it.
    pub fn set_userdata_owned(&mut self, userdata: Option<Vec<u8>>)
        ensures
            final(self)@ == (ProcessorModel {
                userdata: match userdata {
                    Some(d) => Some(d@),
                    None => None::<Seq<u8>>,
                },
                userdata_owned: true,
                ..old(self)@
            }),
    {
        self.set_userdata(userdata);
    }

    /// Attaches user metadata handed in borrowed, or detaches it. The
    /// bytes are kept for the processor's own lifetime.
    pub fn set_userdata_borrowed(&mut self, userdata: Option<&[u8]>)
        ensures
            final(self)@ == (ProcessorModel {
                userdata: match userdata {
                    Some(d) => Some(d@),
                    None => None::<Seq<u8>>,
                },
                userdata_owned: false,
                ..old(self)@
            }),
    {
        self.userdata = match userdata {
            Some(d) => Some(copy_byte_slice(d)),
            None => None,
        };
        self.userdata_owned = false;
    }

    /// The attached user metadata, if any.
    pub fn userdata(&self) -> (r: Option<&Vec<u8>>)
        ensures
            match r {
                Some(d) => self@.userdata == Some(d@),
                None => self@.userdata is None,
            },
    {
        self.userdata.as_ref()
    }

    /// Records one configuration request. Every request the enumerations
    /// can express is understood, so this always succeeds.
    pub fn set_config(
        &mut self,
        symbol_type: ZBarSymbolType,
        config: ZBarConfig,
        value: i32,
    ) -> (r: ZBarResult<()>)
        ensures
            r is Ok,
            final(self)@ == (ProcessorModel {
                config: old(self)@.config.with_config(symbol_type, config, value),
                ..old(self)@
            }),
    {
        self.config.apply(symbol_type, config, value);
        Ok(())
    }

    /// Whether the display window is visible.
    pub fn is_visible(&self) -> (r: ZBarResult<bool>)
        ensures
            r == Ok::<bool, ZBarErrorType>(self@.visible),
    {
        Ok(self.visible)
    }

    /// Shows or hides the display window, returning the state set.
    pub fn set_visible(&mut self, visible: bool) -> (r: ZBarResult<bool>)
        ensures
            r == Ok::<bool, ZBarErrorType>(visible),
            final(self)@ == (ProcessorModel { visible, ..old(self)@ }),
    {
        self.visible = visible;
        Ok(visible)
    }

    /// Starts or stops capture, returning the state set.
    pub fn set_active(&mut self, active: bool) -> (r: ZBarResult<bool>)
        ensures
            r == Ok::<bool, ZBarErrorType>(active),
            final(self)@ == (ProcessorModel { active, ..old(self)@ }),
    {
        self.active = active;
        Ok(active)
    }

    /// The result set of the latest decode, if any.
    pub fn get_results(&self) -> (r: Option<ZBarSymbolSet>)
        ensures
            match r {
                Some(s) => self@.results == Some(s@),
                None => self@.results is None,
            },
    {
        match &self.results {
            Some(s) => Some(s.clone()),
            None => None,
        }
    }

    /// Blocks for user input or until the timeout elapses. No user input
    /// ever arrives in the model, so the full timeout elapses and is
    /// returned; an unbounded wait would never return and is excluded.
    pub fn user_wait(&self, timeout: i32) -> (r: ZBarResult<i32>)
        requires
            timeout >= 0,
        ensures
            r == Ok::<i32, ZBarErrorType>(timeout),
    {
        Ok(timeout)
    }

    /// Delivers frames from the virtual source until one decodes to a
    /// non-empty result set, which is kept and returned; a source with no
    /// such frame drains and the wait times out with no result. The
    /// timeout never elapses mid-queue, since the virtual source delivers
    /// without waiting.
    pub fn process_one(&mut self, _timeout: i32) -> (r: ZBarResult<Option<ZBarSymbolSet>>)
        ensures
            ({
                let hit = first_hit_from(old(self)@.frames, old(self)@.config, 0);
                match r {
                    Ok(Some(set)) => hit < old(self)@.frames.len() && set@ == scan_results(
                        old(self)@.frames[hit].encoded,
                        old(self)@.config,
                        false,
                        Seq::empty(),
                    ) && final(self)@ == (ProcessorModel {
                        frames: old(self)@.frames.skip(hit + 1),
                        results: Some(set@),
                        ..old(self)@
                    }),
                    Ok(None) => hit == old(self)@.frames.len() && final(self)@ == (ProcessorModel {
                        frames: Seq::<ImageModel>::empty(),
                        ..old(self)@
                    }),
                    Err(_) => false,
                }
            }),
    {
        let no_seen: Vec<String> = Vec::new();
        let ghost frames0 = self@.frames;
        let ghost config0 = self@.config;
        let ghost mut consumed_count: int = 0;
        proof {
            assert(crate::image_scanner::seen_views(no_seen@) =~= Seq::<Seq<char>>::empty());
        }
        while self.frames.len() > 0
            invariant
                frames0 == old(self)@.frames,
                config0 == old(self)@.config,
                0 <= consumed_count <= frames0.len(),
                self.config@ == config0,
                frame_views(self.frames@) =~= frames0.skip(consumed_count),
                first_hit_from(frames0, config0, 0) == first_hit_from(
                    frames0,
                    config0,
                    consumed_count,
                ),
                crate::image_scanner::seen_views(no_seen@) == Seq::<Seq<char>>::empty(),
                self.threaded == old(self).threaded,
                self.userdata == old(self).userdata,
                self.userdata_owned == old(self).userdata_owned,
                self.initialized == old(self).initialized,
                self.display == old(self).display,
                self.visible == old(self).visible,
                self.active == old(self).active,
                self.size_request == old(self).size_request,
                self.interface_version == old(self).interface_version,
                self.iomode == old(self).iomode,
                self.format_request == old(self).format_request,
                self.controls == old(self).controls,
                self.results == old(self).results,
            decreases self.frames@.len(),
        {
            let ghost pre_frames = self.frames@;
            let frame = self.frames.remove(0);
            proof {
                assert(frame == pre_frames[0]);
                assert(frame_views(pre_frames)[0] == pre_frames[0]@);
                assert(frame_views(pre_frames) =~= frames0.skip(consumed_count));
                assert(frame_views(pre_frames).len() == pre_frames.len());
                assert(frames0.skip(consumed_count).len() == frames0.len()
                    - consumed_count);
                assert(consumed_count < frames0.len());
                assert(frames0.skip(consumed_count)[0] == frames0[consumed_count]);
                assert(frame@ == frames0[consumed_count]);
                assert(self.frames@ =~= pre_frames.skip(1));
                assert(frame_views(self.frames@) =~= frame_views(pre_frames).skip(1));
                assert(frame_views(pre_frames).skip(1) =~= frames0.skip(consumed_count + 1));
            }
            let found = scan_records(&self.config, false, &no_seen, frame.encoded_records());
            if found.len() > 0 {
                let set = ZBarSymbolSet::from_records(found);
                self.results = Some(set.clone());
                proof {
                    assert(first_hit_from(frames0, config0, consumed_count)
                        == consumed_count);
                }
                return Ok(Some(set));
            }
            proof {
                assert(first_hit_from(frames0, config0, consumed_count) == first_hit_from(
                    frames0,
                    config0,
                    consumed_count + 1,
                ));
            }
            proof {
                consumed_count = consumed_count + 1;
            }
        }
        proof {
            assert(frame_views(self.frames@) =~= Seq::<ImageModel>::empty());
            assert(consumed_count == frames0.len());
        }
        Ok(None)
    }

    /// Decodes one supplied image synchronously, with the processor's
    /// configuration: the result set is attached to the image, kept as
    /// the latest results and returned. Decoding itself always succeeds —
    /// finding nothing is an empty result, not an error.
    pub fn process_image(&mut self, image: &mut ZBarImage) -> (r: ZBarResult<ZBarSymbolSet>)
        ensures
            ({
                let found = scan_results(
                    old(image)@.encoded,
                    old(self)@.config,
                    false,
                    Seq::empty(),
                );
                match r {
                    Ok(set) => set@ == found && final(image)@ == (ImageModel {
                        symbols: Some(found),
                        ..old(image)@
                    }) && final(self)@ == (ProcessorModel { results: Some(found), ..old(self)@ }),
                    Err(_) => false,
                }
            }),
    {
        let no_seen: Vec<String> = Vec::new();
        proof {
            assert(crate::image_scanner::seen_views(no_seen@) =~= Seq::<Seq<char>>::empty());
        }
        let found = scan_records(&self.config, false, &no_seen, image.encoded_records());
        let set = ZBarSymbolSet::from_records(found);
        image.attach_symbols(set.clone());
        self.results = Some(set.clone());
        Ok(set)
    }

    /// Sets a named device control, such as brightness. The source must
    /// have been attached first; the virtual source accepts any name.
    pub fn set_control(&mut self, control_name: &str, value: i32) -> (r: ZBarResult<()>)
        ensures
            ({
                if old(self)@.initialized {
                    r is Ok && final(self)@ == (ProcessorModel {
                        controls: old(self)@.controls.push((control_name@, value)),
                        ..old(self)@
                    })
                } else {
                    r == Err::<(), ZBarErrorType>(ZBarErrorType::Simple(-1i32)) && final(self)@ == old(
                        self,
                    )@
                }
            }),
    {
        if !self.initialized {
            return Err(ZBarErrorType::Simple(-1));
        }
        self.controls.push((control_name.to_owned(), value));
        proof {
            assert(control_views(self.controls@) =~= control_views(old(self).controls@).push(
                (control_name@, value),
            ));
        }
        Ok(())
    }

    /// Reads a named device control: the value last set for that name.
    /// Fails when the source is not attached or the name was never set.
    pub fn control(&self, control_name: &str) -> (r: ZBarResult<i32>)
        ensures
            ({
                match control_lookup(self@.controls, control_name@) {
                    Some(v) => (if self@.initialized {
                        r == Ok::<i32, ZBarErrorType>(v)
                    } else {
                        r == Err::<i32, ZBarErrorType>(ZBarErrorType::Simple(-1i32))
                    }),
                    None => r == Err::<i32, ZBarErrorType>(ZBarErrorType::Simple(-1i32)),
                }
            }),
    {
        if !self.initialized {
            return Err(ZBarErrorType::Simple(-1));
        }
        let mut i: usize = self.controls.len();
        proof {
            assert(control_views(self.controls@).take(i as int) =~= control_views(self.controls@));
        }
        while i > 0
            invariant
                self@.initialized,
                i <= self.controls@.len(),
                control_lookup(control_views(self.controls@), control_name@) == control_lookup(
                    control_views(self.controls@).take(i as int),
                    control_name@,
                ),
            decreases i,
        {
            i = i - 1;
            let entry = &self.controls[i];
            proof {
                assert(*entry == self.controls@[i as int]);
                assert(control_views(self.controls@).take(i as int + 1).last() == (
                    self.controls@[i as int].0@,
                    self.controls@[i as int].1,
                ));
                assert(control_views(self.controls@).take(i as int + 1).drop_last()
                    =~= control_views(self.controls@).take(i as int));
            }
            if crate::text::str_eq(entry.0.as_str(), control_name) {
                proof {
                    assert(control_lookup(
                        control_views(self.controls@).take(i as int + 1),
                        control_name@,
                    ) == Some(entry.1));
                }
                return Ok(entry.1);
            }
        }
        proof {
            assert(control_views(self.controls@).take(0) =~= Seq::<(Seq<char>, i32)>::empty());
        }
        Err(ZBarErrorType::Simple(-1))
    }
}

/// Copies a byte slice into an owned vector, element by element.
fn copy_byte_slice(bytes: &[u8]) -> (r: Vec<u8>)
    ensures
        r@ == bytes@,
{
    let mut out: Vec<u8> = Vec::new();
    let mut i: usize = 0;
    while i < bytes.len()
        invariant
            i <= bytes@.len(),
            out@ =~= bytes@.take(i as int),
        decreases bytes@.len() - i,
    {
        out.push(bytes[i]);
        i = i + 1;
    }
    proof {
        assert(bytes@.take(bytes@.len() as int) =~= bytes@);
    }
    out
}

/// A builder that accumulates a processor's construction-time options and
/// configuration requests, and applies them in one step.
pub struct ProcessorBuilder {
    threaded: bool,
    size: Option<(u32, u32)>,
    interface_version: Option<i32>,
    iomode: Option<i32>,
    format: Option<(Format, Format)>,
    requests: Vec<(ZBarSymbolType, ZBarConfig, i32)>,
}

/// The spec-level state of a processor builder.
pub ghost struct ProcessorBuilderModel {
    pub threaded: bool,
    pub size: Option<(u32, u32)>,
    pub interface_version: Option<i32>,
    pub iomode: Option<i32>,
    pub format: Option<(Format, Format)>,
    pub requests: Seq<(ZBarSymbolType, ZBarConfig, i32)>,
}

impl View for ProcessorBuilder {
    type V = ProcessorBuilderModel;

    closed spec fn view(&self) -> ProcessorBuilderModel {
        ProcessorBuilderModel {
            threaded: self.threaded,
            size: self.size,
            interface_version: self.interface_version,
            iomode: self.iomode,
            format: self.format,
            requests: self.requests@,
        }
    }
}

impl ProcessorBuilder {
    /// The state an empty builder starts from.
    pub open spec fn fresh_builder() -> ProcessorBuilderModel {
        ProcessorBuilderModel {
            threaded: false,
            size: None,
            interface_version: None,
            iomode: None,
            format: None,
            requests: Seq::empty(),
        }
    }

    /// An empty builder: unthreaded, nothing requested.
    pub fn new() -> (r: ProcessorBuilder)
        ensures
            r@ == ProcessorBuilder::fresh_builder(),
    {
        let r = ProcessorBuilder {
            threaded: false,
            size: None,
            interface_version: None,
            iomode: None,
            format: None,
            requests: Vec::new(),
        };
        proof {
            assert(r.requests@ =~= Seq::<(ZBarSymbolType, ZBarConfig, i32)>::empty());
        }
        r
    }

    /// Chooses whether the engine runs its own capture thread.
    pub fn threaded(self, threaded: bool) -> (r: ProcessorBuilder)
        ensures
            r@ == (ProcessorBuilderModel { threaded, ..self@ }),
    {
        ProcessorBuilder { threaded, ..self }
    }

    /// Sets the capture size to request, or clears the request.
    pub fn with_size(self, size: Option<(u32, u32)>) -> (r: ProcessorBuilder)
        ensures
            r@ == (ProcessorBuilderModel { size, ..self@ }),
    {
        ProcessorBuilder { size, ..self }
    }

    /// Sets the interface version to request, or clears the request.
    pub fn with_interface_version(self, interface_version: Option<i32>) -> (r: ProcessorBuilder)
        ensures
            r@ == (ProcessorBuilderModel { interface_version, ..self@ }),
    {
        ProcessorBuilder { interface_version, ..self }
    }

    /// Sets the I/O mode to request, or clears the request.
    pub fn with_iomode(self, iomode: Option<i32>) -> (r: ProcessorBuilder)
        ensures
            r@ == (ProcessorBuilderModel { iomode, ..self@ }),
    {
        ProcessorBuilder { iomode, ..self }
    }

    /// Sets the pixel formats to force, or clears the request.
    pub fn with_format(self, format: Option<(Format, Format)>) -> (r: ProcessorBuilder)
        ensures
            r@ == (ProcessorBuilderModel { format, ..self@ }),
    {
        ProcessorBuilder { format, ..self }
    }

    /// Appends one configuration request.
    pub fn with_config(self, symbol_type: ZBarSymbolType, config: ZBarConfig, value: i32) -> (r:
        ProcessorBuilder)
        ensures
            r@ == (ProcessorBuilderModel {
                requests: self@.requests.push((symbol_type, config, value)),
                ..self@
            }),
    {
        let mut requests = self.requests;
        requests.push((symbol_type, config, value));
        ProcessorBuilder {
            threaded: self.threaded,
            size: self.size,
            interface_version: self.interface_version,
            iomode: self.iomode,
            format: self.format,
            requests,
        }
    }

    /// Builds the processor: creates it fresh, applies the negotiation
    /// requests that were set, then every configuration request in
    /// order. The virtual source accepts every request, so this always
    /// succeeds.
    pub fn build(self) -> (r: ZBarResult<Processor>)
        ensures
            match r {
                Ok(processor) => processor@ == (ProcessorModel {
                    config: fresh_config().with_config_seq(self@.requests),
                    size_request: self@.size,
                    interface_version: self@.interface_version,
                    iomode: self@.iomode,
                    format_request: self@.format,
                    ..fresh_processor(self@.threaded)
                }),
                Err(_) => false,
            },
    {
        let mut processor = Processor::new(self.threaded);
        if let Some(size) = self.size {
            match processor.request_size(size.0, size.1) {
                Ok(()) => {},
                Err(e) => {
                    return Err(e);
                },
            }
        }
        if let Some(interface_version) = self.interface_version {
            match processor.request_interface(interface_version) {
                Ok(()) => {},
                Err(e) => {
                    return Err(e);
                },
            }
        }
        if let Some(iomode) = self.iomode {
            match processor.request_iomode(iomode) {
                Ok(()) => {},
                Err(e) => {
                    return Err(e);
                },
            }
        }
        if let Some(format) = self.format {
            match processor.force_format(format.0, format.1) {
                Ok(()) => {},
                Err(e) => {
                    return Err(e);
                },
            }
        }
        let mut i: usize = 0;
        while i < self.requests.len()
            invariant
                i <= self.requests@.len(),
                processor@ == (ProcessorModel {
                    config: fresh_config().with_config_seq(self.requests@.take(i as int)),
                    size_request: self@.size,
                    interface_version: self@.interface_version,
                    iomode: self@.iomode,
                    format_request: self@.format,
                    ..fresh_processor(self@.threaded)
                }),
            decreases self.requests@.len() - i,
        {
            let request = self.requests[i];
            match processor.set_config(request.0, request.1, request.2) {
                Ok(()) => {},
                Err(e) => {
                    return Err(e);
                },
            }
            proof {
                assert(self.requests@.take(i as int + 1).drop_last() =~= self.requests@.take(
                    i as int,
                ));
                assert(self.requests@.take(i as int + 1).last() == self.requests@[i as int]);
            }
            i = i + 1;
        }
        proof {
            assert(self.requests@.take(self.requests@.len() as int) =~= self.requests@);
        }
        Ok(processor)
    }
}

} // verus!
