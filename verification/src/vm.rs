//! Configuration of a virtual machine before it starts, and the state that
//! its hooks reach while it runs.

use vstd::prelude::*;
use vstd::string::*;
use vstd::utf8::encode_utf8;
use crate::errors::{Trace, TraceView, WrenError, WrenErrorType, WrenErrorView};
use crate::foreign::{
    binding_of, ClassBinding, ClassKey, Foreign, ForeignMethod, MethodBinding, MethodKey, WrenClass,
};
use crate::util::{c_string_spec, decoded_text, nul_free};

verus! {

/// How an interpretation ended.
#[derive(Debug, Clone, Copy, PartialEq, Eq, Structural)]
pub enum WrenInterpretResult {
    Success,
    CompileError,
    RuntimeError,
}

/// What one call of the error hook carries: a further frame of the trace, or
/// the error that opens a failure.
pub open spec fn event_view(event: Result<Trace, WrenError>) -> Result<TraceView, WrenErrorView> {
    match event {
        Ok(trace) => Ok(trace@),
        Err(error) => Err(error@),
    }
}

/// A frame may only follow a runtime error; an error may come at any time.
pub open spec fn accepts(
    state: Option<WrenErrorView>,
    event: Result<TraceView, WrenErrorView>,
) -> bool {
    event is Err || state matches Some(WrenErrorView::Runtime { .. })
}

/// The error held after `event`: an error replaces what was held, a frame is
/// appended to the stack of the runtime error held.
pub open spec fn record(
    state: Option<WrenErrorView>,
    event: Result<TraceView, WrenErrorView>,
) -> Option<WrenErrorView> {
    match event {
        Err(error) => Some(error),
        Ok(trace) => match state {
            Some(WrenErrorView::Runtime { message, stack }) => Some(
                WrenErrorView::Runtime { message, stack: stack.push(trace) },
            ),
            _ => state,
        },
    }
}

/// The error held after a sequence of events, taken from the first on.
pub open spec fn record_all(
    state: Option<WrenErrorView>,
    events: Seq<Result<TraceView, WrenErrorView>>,
) -> Option<WrenErrorView>
    decreases events.len(),
{
    if events.len() == 0 {
        state
    } else {
        record_all(record(state, events.first()), events.drop_first())
    }
}

/// Every event of the sequence may be recorded when its turn comes.
pub open spec fn accepts_all(
    state: Option<WrenErrorView>,
    events: Seq<Result<TraceView, WrenErrorView>>,
) -> bool
    decreases events.len(),
{
    events.len() == 0 || (accepts(state, events.first()) && accepts_all(
        record(state, events.first()),
        events.drop_first(),
    ))
}

/// The views of a sequence of events.
pub open spec fn events_view(events: Seq<Result<Trace, WrenError>>) -> Seq<
    Result<TraceView, WrenErrorView>,
> {
    events.map_values(|e: Result<Trace, WrenError>| event_view(e))
}

/// The view of an optional error.
pub open spec fn held_view(error: Option<WrenError>) -> Option<WrenErrorView> {
    match error {
        Some(e) => Some(e@),
        None => None,
    }
}

/// Turns one call of the error hook into an event: a frame for a trace
/// entry, whose text names the function, and an error otherwise.
pub fn error_callback(ty: WrenErrorType, module: &[u8], line: i32, message: &[u8]) -> (r: Result<
    Trace,
    WrenError,
>)
    ensures
        ty == WrenErrorType::StackTrace ==> r is Ok,
        ty != WrenErrorType::StackTrace ==> r is Err,
        event_view(r) == (if ty == WrenErrorType::StackTrace {
            Ok::<TraceView, WrenErrorView>(
                TraceView {
                    function: decoded_text(c_string_spec(message@)),
                    module: decoded_text(c_string_spec(module@)),
                    line: crate::errors::line_of(line),
                },
            )
        } else if ty == WrenErrorType::Compile {
            Err(
                WrenErrorView::Compile {
                    module: decoded_text(c_string_spec(module@)),
                    line: crate::errors::line_of(line),
                    message: decoded_text(c_string_spec(message@)),
                },
            )
        } else {
            Err(
                WrenErrorView::Runtime {
                    message: decoded_text(c_string_spec(message@)),
                    stack: Seq::empty(),
                },
            )
        }),
{
    match ty {
        WrenErrorType::StackTrace => Ok(Trace::new(message, module, line)),
        _ => Err(WrenError::new(ty, module, line, message)),
    }
}

/// What every hook of a running machine can reach: the bindings, and the
/// error recorded during the current interpretation.
pub struct UserData {
    foreigns: Foreign,
    error: Option<WrenError>,
}

impl UserData {
    /// The bindings.
    pub closed spec fn bindings(&self) -> Foreign {
        self.foreigns
    }

    /// The bindings, for the lookups that the binding hooks make.
    pub fn foreigns(&self) -> (r: &Foreign)
        ensures
            *r == self.bindings(),
    {
        &self.foreigns
    }

    /// The error held, if one was recorded and not yet taken.
    pub closed spec fn error(&self) -> Option<WrenErrorView> {
        held_view(self.error)
    }

    /// Whether `event` may be recorded now.
    pub fn can_record(&self, event: &Result<Trace, WrenError>) -> (r: bool)
        ensures
            r == accepts(self.error(), event_view(*event)),
    {
        match event {
            Err(_) => true,
            Ok(_) => match &self.error {
                Some(WrenError::Runtime { .. }) => true,
                _ => false,
            },
        }
    }

    /// Whether an error is held.
    pub fn has_error(&self) -> (r: bool)
        ensures
            r == self.error().is_some(),
    {
        self.error.is_some()
    }

    /// Records one event of the error hook.
    pub fn record_event(&mut self, event: Result<Trace, WrenError>)
        requires
            accepts(old(self).error(), event_view(event)),
        ensures
            final(self).error() == record(old(self).error(), event_view(event)),
            final(self).bindings() == old(self).bindings(),
    {
        match event {
            Err(error) => {
                self.error = Some(error);
            },
            Ok(trace) => {
                let held = self.error.take();
                match held {
                    Some(WrenError::Runtime { message, mut stack }) => {
                        let ghost before = stack@.map_values(|t: Trace| t@);
                        stack.push(trace);
                        assert(stack@.map_values(|t: Trace| t@) =~= before.push(trace@));
                        self.error = Some(WrenError::Runtime { message, stack });
                    },
                    other => {
                        self.error = other;
                    },
                }
            },
        }
    }

    /// Ends an interpretation: success yields nothing and leaves the state
    /// as it is, any other result takes the recorded error out and yields
    /// it.
    pub fn conclude(&mut self, result: WrenInterpretResult) -> (r: Result<(), WrenError>)
        requires
            result != WrenInterpretResult::Success ==> old(self).error().is_some(),
        ensures
            final(self).bindings() == old(self).bindings(),
            result == WrenInterpretResult::Success ==> r is Ok && final(self).error() == old(
                self,
            ).error(),
            result != WrenInterpretResult::Success ==> r is Err && Some(r->Err_0@) == old(
                self,
            ).error() && final(self).error().is_none(),
    {
        match result {
            WrenInterpretResult::Success => Ok(()),
            _ => {
                let held = self.error.take();
                match held {
                    Some(error) => Err(error),
                    None => Ok(()),
                }
            },
        }
    }
}

/// Collects the bindings of a virtual machine before it is started.
pub struct WrenBuilder {
    foreigns: Foreign,
}

impl WrenBuilder {
    /// The bindings collected so far.
    pub closed spec fn foreigns(&self) -> Foreign {
        self.foreigns
    }

    /// A builder without bindings.
    pub fn new() -> (r: WrenBuilder)
        ensures
            r.foreigns().wf(),
            r.foreigns().classes() == Map::<ClassKey, ClassBinding>::empty(),
            r.foreigns().methods() == Map::<MethodKey, MethodBinding>::empty(),
    {
        WrenBuilder { foreigns: Foreign::new() }
    }

    /// Binds the native type `T` under its module and class name.
    pub fn bind_class<T: WrenClass>(self) -> (r: WrenBuilder)
        requires
            self.foreigns().wf(),
            nul_free(T::MODULE.spec_bytes()),
            nul_free(T::CLASS.spec_bytes()),
        ensures
            r.foreigns().wf(),
            r.foreigns().classes() == self.foreigns().classes().insert(
                (T::MODULE.spec_bytes(), T::CLASS.spec_bytes()),
                binding_of::<T>(),
            ),
            r.foreigns().methods() == self.foreigns().methods(),
    {
        let mut this = self;
        this.foreigns.bind_class::<T>();
        this
    }

    /// Binds a native callback as the method `name` of a class.
    pub fn bind_method(
        self,
        module: &str,
        class_name: &str,
        is_static: bool,
        name: &str,
        method: ForeignMethod,
    ) -> (r: WrenBuilder)
        requires
            self.foreigns().wf(),
            nul_free(module.spec_bytes()),
            nul_free(class_name.spec_bytes()),
            nul_free(name.spec_bytes()),
            nul_free(encode_utf8(method.signature@)),
        ensures
            r.foreigns().wf(),
            r.foreigns().methods() == self.foreigns().methods().insert(
                (
                    module.spec_bytes(),
                    class_name.spec_bytes(),
                    is_static,
                    name.spec_bytes() + encode_utf8(method.signature@),
                ),
                method.method,
            ),
            r.foreigns().classes() == self.foreigns().classes(),
    {
        let mut this = self;
        this.foreigns.bind_method(module, class_name, is_static, name, method);
        this
    }

    /// Closes the configuration: the machine's state holds the bindings
    /// and no error.
    pub fn build(self) -> (r: Wren)
        requires
            self.foreigns().wf(),
        ensures
            r.data().bindings() == self.foreigns(),
            r.data().error().is_none(),
    {
        Wren { user_data: UserData { foreigns: self.foreigns, error: None } }
    }
}

/// The native side of one virtual machine.
pub struct Wren {
    user_data: UserData,
}

impl Wren {
    /// The state that the hooks reach.
    pub closed spec fn data(&self) -> UserData {
        self.user_data
    }

    /// The state that the hooks reach, for reading.
    pub fn user_data(&self) -> (r: &UserData)
        ensures
            *r == self.data(),
    {
        &self.user_data
    }

    /// The state that the hooks reach, for recording.
    pub fn user_data_mut(&mut self) -> (r: &mut UserData)
        ensures
            *r == old(self).data(),
            final(self).data() == *final(r),
    {
        &mut self.user_data
    }

    /// One interpretation as the native side sees it: the events that the
    /// error hook received while the script ran, in order, and then the
    /// result code. Success yields nothing; any other result yields the
    /// error that the events built up, and leaves none behind.
    pub fn interpret(
        &mut self,
        events: Vec<Result<Trace, WrenError>>,
        result: WrenInterpretResult,
    ) -> (r: Result<(), WrenError>)
        requires
            accepts_all(old(self).data().error(), events_view(events@)),
            result != WrenInterpretResult::Success ==> record_all(
                old(self).data().error(),
                events_view(events@),
            ).is_some(),
        ensures
            final(self).data().bindings() == old(self).data().bindings(),
            result == WrenInterpretResult::Success ==> r is Ok && final(self).data().error()
                == record_all(old(self).data().error(), events_view(events@)),
            result != WrenInterpretResult::Success ==> r is Err && Some(r->Err_0@) == record_all(
                old(self).data().error(),
                events_view(events@),
            ) && final(self).data().error().is_none(),
    {
        let mut rest = events;
        while rest.len() > 0
            invariant
                self.user_data.bindings() == old(self).data().bindings(),
                accepts_all(self.user_data.error(), events_view(rest@)),
                record_all(self.user_data.error(), events_view(rest@)) == record_all(
                    old(self).data().error(),
                    events_view(events@),
                ),
            decreases rest.len(),
        {
            let ghost before = events_view(rest@);
            let event = rest.remove(0);
            assert(events_view(rest@) =~= before.drop_first());
            assert(before.first() == event_view(event));
            self.user_data.record_event(event);
        }
        assert(events_view(rest@).len() == 0);
        self.user_data.conclude(result)
    }
}

/// Frames that follow a runtime error are all accepted, and the error then
/// holds them behind those it held before, in the order in which they came.
pub proof fn lemma_frames_in_order(
    message: Seq<char>,
    stack: Seq<TraceView>,
    frames: Seq<TraceView>,
)
    ensures
        accepts_all(
            Some(WrenErrorView::Runtime { message, stack }),
            frames.map_values(|t: TraceView| Ok::<TraceView, WrenErrorView>(t)),
        ),
        record_all(
            Some(WrenErrorView::Runtime { message, stack }),
            frames.map_values(|t: TraceView| Ok::<TraceView, WrenErrorView>(t)),
        ) == Some(WrenErrorView::Runtime { message, stack: stack + frames }),
    decreases frames.len(),
{
    let events = frames.map_values(|t: TraceView| Ok::<TraceView, WrenErrorView>(t));
    if frames.len() == 0 {
        assert(stack + frames =~= stack);
    } else {
        lemma_frames_in_order(message, stack.push(frames.first()), frames.drop_first());
        assert(events.drop_first() =~= frames.drop_first().map_values(
            |t: TraceView| Ok::<TraceView, WrenErrorView>(t),
        ));
        assert(stack.push(frames.first()) + frames.drop_first() =~= stack + frames);
    }
}

/// A frame is never accepted while no error is held, nor while a compile
/// error is held.
pub proof fn lemma_frame_needs_runtime_error(state: Option<WrenErrorView>, frame: TraceView)
    requires
        state is None || state matches Some(WrenErrorView::Compile { .. }),
    ensures
        !accepts(state, Ok(frame)),
{
}

} // verus!
