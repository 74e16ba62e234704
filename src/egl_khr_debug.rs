use vstd::prelude::*;

use crate::egl::EGLErrorCode;

verus! {

/// Address of an object that a debug message is about.
#[derive(Clone, Copy, Debug, PartialEq, Eq, Structural)]
pub struct EGLObjectKHR(pub usize);

/// Address of a label that the application attached to a thread or object.
#[derive(Clone, Copy, Debug, PartialEq, Eq, Structural)]
pub struct EGLLabelKHR(pub usize);

/// Severity classes of debug messages.
#[derive(Clone, Copy, Debug, PartialEq, Eq, Structural)]
pub enum EGLDebugMessageTypeKHR {
    Critical,
    Error,
    Warning,
    Information,
}

impl EGLDebugMessageTypeKHR {
    /// The numeric value of each class on the C boundary.
    pub open spec fn spec_code(self) -> i32 {
        match self {
            EGLDebugMessageTypeKHR::Critical => 0x33B9,
            EGLDebugMessageTypeKHR::Error => 0x33BA,
            EGLDebugMessageTypeKHR::Warning => 0x33BB,
            EGLDebugMessageTypeKHR::Information => 0x33BC,
        }
    }

    pub fn code(&self) -> (r: i32)
        ensures
            r == self.spec_code(),
    {
        match self {
            EGLDebugMessageTypeKHR::Critical => 0x33B9,
            EGLDebugMessageTypeKHR::Error => 0x33BA,
            EGLDebugMessageTypeKHR::Warning => 0x33BB,
            EGLDebugMessageTypeKHR::Information => 0x33BC,
        }
    }
}

/// One diagnostic event, as the registered callback receives it.
#[derive(Clone, Copy, Debug)]
pub struct DebugMessage<'a> {
    pub error: EGLErrorCode,
    pub command: &'a str,
    pub message_type: EGLDebugMessageTypeKHR,
    pub thread_label: EGLLabelKHR,
    pub object_label: EGLLabelKHR,
    pub message: &'a str,
}

/// A callback invocation that a post decided on: the caller runs `callback`
/// on `message`, synchronously, once.
#[derive(Debug)]
pub struct DebugCall<'a, C> {
    pub callback: C,
    pub message: DebugMessage<'a>,
}

/// The abstract state of a diagnostic configuration.
pub struct DebugSettings<C> {
    pub callback: Option<C>,
    pub critical: bool,
    pub error: bool,
    pub warning: bool,
    pub information: bool,
}

impl<C> DebugSettings<C> {
    /// No callback; critical, error and warning messages enabled,
    /// information messages disabled.
    pub open spec fn initial() -> DebugSettings<C> {
        DebugSettings { callback: None, critical: true, error: true, warning: true, information: false }
    }

    /// Whether messages of a class are passed on.
    pub open spec fn enabled(self, message_type: EGLDebugMessageTypeKHR) -> bool {
        match message_type {
            EGLDebugMessageTypeKHR::Critical => self.critical,
            EGLDebugMessageTypeKHR::Error => self.error,
            EGLDebugMessageTypeKHR::Warning => self.warning,
            EGLDebugMessageTypeKHR::Information => self.information,
        }
    }

    /// The same settings with another callback (or none).
    pub open spec fn with_callback(self, callback: Option<C>) -> DebugSettings<C> {
        DebugSettings { callback, ..self }
    }

    /// The same settings with the flag of one class set.
    pub open spec fn with_enabled(self, message_type: EGLDebugMessageTypeKHR, enabled: bool) -> DebugSettings<C> {
        match message_type {
            EGLDebugMessageTypeKHR::Critical => DebugSettings { critical: enabled, ..self },
            EGLDebugMessageTypeKHR::Error => DebugSettings { error: enabled, ..self },
            EGLDebugMessageTypeKHR::Warning => DebugSettings { warning: enabled, ..self },
            EGLDebugMessageTypeKHR::Information => DebugSettings { information: enabled, ..self },
        }
    }

    /// What posting `message` decides: the registered callback is called
    /// with the message as it is, when its class is enabled and a callback
    /// is registered; otherwise nothing happens.
    pub open spec fn post<'a>(self, message: DebugMessage<'a>) -> Option<DebugCall<'a, C>> {
        if self.enabled(message.message_type) && self.callback is Some {
            Some(DebugCall { callback: self.callback.unwrap(), message })
        } else {
            None
        }
    }
}

/// The settings after `callbacks` were registered one after another.
pub open spec fn configure_all<C>(settings: DebugSettings<C>, callbacks: Seq<Option<C>>) -> DebugSettings<C>
    decreases callbacks.len(),
{
    if callbacks.len() == 0 {
        settings
    } else {
        configure_all(settings.with_callback(callbacks[0]), callbacks.drop_first())
    }
}

/// The diagnostic configuration: the registered callback, if any, and one
/// enable flag per severity class. The process keeps a single one behind a
/// lock; this type holds the decisions made on it.
pub struct DebugConfig<C> {
    callback: Option<C>,
    enable_critical_messages: bool,
    enable_error_messages: bool,
    enable_warning_messages: bool,
    enable_information_messages: bool,
}

impl<C> View for DebugConfig<C> {
    type V = DebugSettings<C>;

    closed spec fn view(&self) -> DebugSettings<C> {
        DebugSettings {
            callback: self.callback,
            critical: self.enable_critical_messages,
            error: self.enable_error_messages,
            warning: self.enable_warning_messages,
            information: self.enable_information_messages,
        }
    }
}

impl<C: Copy> DebugConfig<C> {
    pub fn new() -> (r: DebugConfig<C>)
        ensures
            r@ == DebugSettings::<C>::initial(),
    {
        DebugConfig {
            callback: None,
            enable_critical_messages: true,
            enable_error_messages: true,
            enable_warning_messages: true,
            enable_information_messages: false,
        }
    }

    pub fn callback(&self) -> (r: Option<C>)
        ensures
            r == self@.callback,
    {
        self.callback
    }

    pub fn is_enabled(&self, message_type: EGLDebugMessageTypeKHR) -> (r: bool)
        ensures
            r == self@.enabled(message_type),
    {
        match message_type {
            EGLDebugMessageTypeKHR::Critical => self.enable_critical_messages,
            EGLDebugMessageTypeKHR::Error => self.enable_error_messages,
            EGLDebugMessageTypeKHR::Warning => self.enable_warning_messages,
            EGLDebugMessageTypeKHR::Information => self.enable_information_messages,
        }
    }

    /// Replace the registered callback; the flags stay as they are.
    pub fn set_callback(&mut self, callback: Option<C>)
        ensures
            final(self)@ == old(self)@.with_callback(callback),
    {
        self.callback = callback;
    }

    /// Enable or disable one severity class; the callback and the other
    /// flags stay as they are.
    pub fn set_enabled(&mut self, message_type: EGLDebugMessageTypeKHR, enabled: bool)
        ensures
            final(self)@ == old(self)@.with_enabled(message_type, enabled),
    {
        match message_type {
            EGLDebugMessageTypeKHR::Critical => self.enable_critical_messages = enabled,
            EGLDebugMessageTypeKHR::Error => self.enable_error_messages = enabled,
            EGLDebugMessageTypeKHR::Warning => self.enable_warning_messages = enabled,
            EGLDebugMessageTypeKHR::Information => self.enable_information_messages = enabled,
        }
    }
}

/// Toggling the flag of one class decides the posts of that class from then
/// on, and leaves the posts of every other class as they were.
pub proof fn lemma_toggle_filters_later_posts<'a, C>(
    settings: DebugSettings<C>,
    message_type: EGLDebugMessageTypeKHR,
    enabled: bool,
    message: DebugMessage<'a>,
)
    ensures
        settings.with_enabled(message_type, enabled).callback == settings.callback,
        settings.with_enabled(message_type, enabled).post(message) == (if message.message_type
            == message_type {
            if enabled && settings.callback is Some {
                Some(DebugCall { callback: settings.callback.unwrap(), message })
            } else {
                None
            }
        } else {
            settings.post(message)
        }),
{
}

/// Registering a callback and then posting an event of an enabled class calls
/// exactly that callback, once, with the event as it was posted.
pub proof fn lemma_configure_then_post<'a, C>(settings: DebugSettings<C>, callback: C, message: DebugMessage<'a>)
    requires
        settings.enabled(message.message_type),
    ensures
        settings.with_callback(Some(callback)).post(message) == Some(DebugCall { callback, message }),
{
}

/// After a series of registrations, in whatever order they were serialized,
/// the last one is the registered callback and the flags are those from
/// before: never a mix of two registrations.
pub proof fn lemma_last_registration_wins<C>(settings: DebugSettings<C>, callbacks: Seq<Option<C>>)
    requires
        callbacks.len() > 0,
    ensures
        configure_all(settings, callbacks) == settings.with_callback(callbacks.last()),
    decreases callbacks.len(),
{
    let next = settings.with_callback(callbacks[0]);
    assert(configure_all(settings, callbacks) == configure_all(next, callbacks.drop_first()));
    if callbacks.len() > 1 {
        lemma_last_registration_wins(next, callbacks.drop_first());
        assert(callbacks.drop_first().last() == callbacks.last());
    } else {
        assert(callbacks.drop_first().len() == 0);
        assert(configure_all(next, callbacks.drop_first()) == next);
    }
}

/// Decide what posting a diagnostic event does under `config`: the call to
/// make, carrying the event's fields unchanged, or `None` when the class is
/// disabled or no callback is registered.
pub fn post_debug_msg<'a, C: Copy>(
    config: &DebugConfig<C>,
    error_code: EGLErrorCode,
    command: &'a str,
    message_type: EGLDebugMessageTypeKHR,
    thread_label: EGLLabelKHR,
    object_label: EGLLabelKHR,
    message: &'a str,
) -> (r: Option<DebugCall<'a, C>>)
    ensures
        r == config@.post(
            DebugMessage { error: error_code, command, message_type, thread_label, object_label, message },
        ),
{
    if !config.is_enabled(message_type) {
        return None;
    }
    match config.callback() {
        Some(callback) => Some(
            DebugCall {
                callback,
                message: DebugMessage {
                    error: error_code,
                    command,
                    message_type,
                    thread_label,
                    object_label,
                    message,
                },
            },
        ),
        None => None,
    }
}

/// Register `callback` (or clear the registration with `None`) as the
/// diagnostic callback.
#[allow(non_snake_case)]
pub fn eglDebugMessageControlKHR<C: Copy>(config: &mut DebugConfig<C>, callback: Option<C>) -> (r: EGLErrorCode)
    ensures
        final(config)@ == old(config)@.with_callback(callback),
        r == EGLErrorCode::Success,
{
    config.set_callback(callback);
    EGLErrorCode::Success
}

} // verus!
