use vstd::prelude::*;

use crate::error::{codec_error, err, first_of, CodecError, ErrorKind, Field};
use crate::sentinel::{bool_byte, c_bool, rust_bool};
use crate::text::{
    c_opt_strings, c_opt_text, opt_strings_error, opt_strings_holds, opt_text_error,
    opt_text_holds, rust_opt_strings, rust_opt_text, spec_opt_strings, spec_opt_text, text_error,
    CStringArray, CText,
};

verus! {

/// How a session starts: with an action that expects an answer, or with a
/// notification that is only spoken.
#[derive(Clone, Debug, PartialEq)]
pub enum SessionInit {
    Action {
        text: Option<String>,
        intent_filter: Option<Vec<String>>,
        can_be_enqueued: bool,
        send_intent_not_recognized: bool,
    },
    Notification { text: String },
}

pub enum SessionInitView {
    Action {
        text: Option<Seq<char>>,
        intent_filter: Option<Seq<Seq<char>>>,
        can_be_enqueued: bool,
        send_intent_not_recognized: bool,
    },
    Notification { text: Seq<char> },
}

impl DeepView for SessionInit {
    type V = SessionInitView;

    open spec fn deep_view(&self) -> SessionInitView {
        match self {
            SessionInit::Action { text, intent_filter, can_be_enqueued, send_intent_not_recognized } =>
                SessionInitView::Action {
                text: text.deep_view(),
                intent_filter: intent_filter.deep_view(),
                can_be_enqueued: *can_be_enqueued,
                send_intent_not_recognized: *send_intent_not_recognized,
            },
            SessionInit::Notification { text } => SessionInitView::Notification { text: text@ },
        }
    }
}

/// Starts a session on a site.
#[derive(Clone, Debug, PartialEq)]
pub struct StartSessionMessage {
    pub init: SessionInit,
    pub custom_data: Option<String>,
    pub site_id: Option<String>,
}

pub struct StartSessionMessageView {
    pub init: SessionInitView,
    pub custom_data: Option<Seq<char>>,
    pub site_id: Option<Seq<char>>,
}

impl DeepView for StartSessionMessage {
    type V = StartSessionMessageView;

    open spec fn deep_view(&self) -> StartSessionMessageView {
        StartSessionMessageView {
            init: self.init.deep_view(),
            custom_data: self.custom_data.deep_view(),
            site_id: self.site_id.deep_view(),
        }
    }
}

/// The discriminant of [`CSessionInit`]. Its codes start at 1, so that
/// zero-filled memory is never taken for a variant.
#[allow(non_camel_case_types)]
#[derive(Clone, Copy, Debug, PartialEq, Eq, Structural)]
pub enum SNIPS_SESSION_INIT_TYPE {
    SNIPS_SESSION_INIT_TYPE_ACTION,
    SNIPS_SESSION_INIT_TYPE_NOTIFICATION,
}

pub const SESSION_INIT_ACTION: u32 = 1;

pub const SESSION_INIT_NOTIFICATION: u32 = 2;

pub open spec fn init_code(v: SessionInitView) -> u32 {
    match v {
        SessionInitView::Action { .. } => SESSION_INIT_ACTION,
        SessionInitView::Notification { .. } => SESSION_INIT_NOTIFICATION,
    }
}

impl SNIPS_SESSION_INIT_TYPE {
    pub fn from(slot_value: &SessionInit) -> (r: Self)
        ensures
            r.code_spec() == init_code(slot_value.deep_view()),
    {
        match slot_value {
            SessionInit::Notification { .. } => SNIPS_SESSION_INIT_TYPE::SNIPS_SESSION_INIT_TYPE_NOTIFICATION,
            SessionInit::Action { .. } => SNIPS_SESSION_INIT_TYPE::SNIPS_SESSION_INIT_TYPE_ACTION,
        }
    }

    pub open spec fn code_spec(&self) -> u32 {
        match self {
            SNIPS_SESSION_INIT_TYPE::SNIPS_SESSION_INIT_TYPE_ACTION => SESSION_INIT_ACTION,
            SNIPS_SESSION_INIT_TYPE::SNIPS_SESSION_INIT_TYPE_NOTIFICATION => SESSION_INIT_NOTIFICATION,
        }
    }

    /// The code written in the discriminant field.
    pub fn code(&self) -> (r: u32)
        ensures
            r == self.code_spec(),
    {
        match self {
            SNIPS_SESSION_INIT_TYPE::SNIPS_SESSION_INIT_TYPE_ACTION => SESSION_INIT_ACTION,
            SNIPS_SESSION_INIT_TYPE::SNIPS_SESSION_INIT_TYPE_NOTIFICATION => SESSION_INIT_NOTIFICATION,
        }
    }
}

/// The payload of an action start: two nullable fields and two boolean bytes.
pub struct CActionSessionInit {
    pub text: Option<CText>,
    pub intent_filter: Option<CStringArray>,
    pub can_be_enqueued: u8,
    pub send_intent_not_recognized: u8,
}

pub open spec fn action_error(text: Option<Seq<char>>, intent_filter: Option<Seq<Seq<char>>>) -> Option<
    CodecError,
> {
    first_of(opt_text_error(text, Field::Text), opt_strings_error(intent_filter))
}

impl CActionSessionInit {
    pub open spec fn encodes(
        &self,
        text: Option<Seq<char>>,
        intent_filter: Option<Seq<Seq<char>>>,
        can_be_enqueued: bool,
        send_intent_not_recognized: bool,
    ) -> bool {
        &&& opt_text_holds(self.text, text)
        &&& opt_strings_holds(self.intent_filter, intent_filter)
        &&& self.can_be_enqueued == bool_byte(can_be_enqueued)
        &&& self.send_intent_not_recognized == bool_byte(send_intent_not_recognized)
    }

    pub open spec fn spec_rust(&self) -> Result<SessionInitView, CodecError> {
        match spec_opt_strings(self.intent_filter) {
            Ok(intent_filter) => Ok(
                SessionInitView::Action {
                    text: spec_opt_text(self.text),
                    intent_filter,
                    can_be_enqueued: self.can_be_enqueued != 0,
                    send_intent_not_recognized: self.send_intent_not_recognized != 0,
                },
            ),
            Err(e) => Err(e),
        }
    }

    pub fn new(
        text: Option<String>,
        intent_filter: Option<Vec<String>>,
        can_be_enqueued: bool,
        send_intent_not_recognized: bool,
    ) -> (r: Result<Self, CodecError>)
        ensures
            r is Ok <==> action_error(text.deep_view(), intent_filter.deep_view()) is None,
            r matches Ok(c) ==> c.encodes(
                text.deep_view(),
                intent_filter.deep_view(),
                can_be_enqueued,
                send_intent_not_recognized,
            ),
            r matches Err(e) ==> action_error(text.deep_view(), intent_filter.deep_view()) == Some(e),
    {
        let text = match c_opt_text(&text, Field::Text) {
            Ok(t) => t,
            Err(e) => return Err(e),
        };
        let intent_filter = match c_opt_strings(intent_filter) {
            Ok(a) => a,
            Err(e) => return Err(e),
        };
        Ok(CActionSessionInit {
            text,
            intent_filter,
            can_be_enqueued: c_bool(can_be_enqueued),
            send_intent_not_recognized: c_bool(send_intent_not_recognized),
        })
    }

    pub fn to_action_session_init(&self) -> (r: Result<SessionInit, CodecError>)
        ensures
            match r {
                Ok(v) => self.spec_rust() == Ok::<_, CodecError>(v.deep_view()),
                Err(e) => self.spec_rust() == Err::<SessionInitView, _>(e),
            },
    {
        let intent_filter = match rust_opt_strings(&self.intent_filter) {
            Ok(v) => v,
            Err(e) => return Err(e),
        };
        Ok(SessionInit::Action {
            text: rust_opt_text(&self.text),
            intent_filter,
            can_be_enqueued: rust_bool(self.can_be_enqueued),
            send_intent_not_recognized: rust_bool(self.send_intent_not_recognized),
        })
    }
}

/// What the payload pointer of a [`CSessionInit`] holds: nothing, a text, or
/// an action record. Which of the last two it must be is told by the discriminant.
pub enum CSessionInitValue {
    Null,
    Text(CText),
    Action(CActionSessionInit),
}

/// The tagged union of a session start: a discriminant and a payload.
pub struct CSessionInit {
    pub init_type: u32,
    pub value: CSessionInitValue,
}

pub open spec fn session_init_error(v: SessionInitView) -> Option<CodecError> {
    match v {
        SessionInitView::Action { text, intent_filter, .. } => action_error(text, intent_filter),
        SessionInitView::Notification { text } => text_error(text, Field::Text),
    }
}

impl CSessionInit {
    pub open spec fn encodes(&self, v: SessionInitView) -> bool {
        &&& self.init_type == init_code(v)
        &&& match (v, self.value) {
            (
                SessionInitView::Action {
                    text,
                    intent_filter,
                    can_be_enqueued,
                    send_intent_not_recognized,
                },
                CSessionInitValue::Action(a),
            ) => a.encodes(text, intent_filter, can_be_enqueued, send_intent_not_recognized),
            (SessionInitView::Notification { text }, CSessionInitValue::Text(t)) => t@ == text,
            _ => false,
        }
    }

    /// Decoding dispatches on the discriminant alone; a payload of the other
    /// shape, a null payload or an unknown code is an invalid union.
    pub open spec fn spec_rust(&self) -> Result<SessionInitView, CodecError> {
        if self.init_type == SESSION_INIT_ACTION {
            match self.value {
                CSessionInitValue::Action(a) => a.spec_rust(),
                _ => Err(err(ErrorKind::InvalidUnion, Field::Init)),
            }
        } else if self.init_type == SESSION_INIT_NOTIFICATION {
            match self.value {
                CSessionInitValue::Text(t) => Ok(SessionInitView::Notification { text: t@ }),
                _ => Err(err(ErrorKind::InvalidUnion, Field::Init)),
            }
        } else {
            Err(err(ErrorKind::InvalidUnion, Field::Init))
        }
    }

    pub fn from(init: SessionInit) -> (r: Result<Self, CodecError>)
        ensures
            r is Ok <==> session_init_error(init.deep_view()) is None,
            r matches Ok(c) ==> c.encodes(init.deep_view()),
            r matches Err(e) ==> session_init_error(init.deep_view()) == Some(e),
    {
        let init_type = SNIPS_SESSION_INIT_TYPE::from(&init).code();
        let value = match init {
            SessionInit::Action { text, intent_filter, can_be_enqueued, send_intent_not_recognized } => {
                match CActionSessionInit::new(
                    text,
                    intent_filter,
                    can_be_enqueued,
                    send_intent_not_recognized,
                ) {
                    Ok(a) => CSessionInitValue::Action(a),
                    Err(e) => return Err(e),
                }
            },
            SessionInit::Notification { text } => match CText::new(text.as_str()) {
                Some(t) => CSessionInitValue::Text(t),
                None => return Err(codec_error(ErrorKind::Encoding, Field::Text)),
            },
        };
        Ok(CSessionInit { init_type, value })
    }

    pub fn to_session_init(&self) -> (r: Result<SessionInit, CodecError>)
        ensures
            match r {
                Ok(v) => self.spec_rust() == Ok::<_, CodecError>(v.deep_view()),
                Err(e) => self.spec_rust() == Err::<SessionInitView, _>(e),
            },
    {
        if self.init_type == SESSION_INIT_ACTION {
            match &self.value {
                CSessionInitValue::Action(a) => a.to_action_session_init(),
                _ => Err(codec_error(ErrorKind::InvalidUnion, Field::Init)),
            }
        } else if self.init_type == SESSION_INIT_NOTIFICATION {
            match &self.value {
                CSessionInitValue::Text(t) => Ok(SessionInit::Notification { text: t.to_text() }),
                _ => Err(codec_error(ErrorKind::InvalidUnion, Field::Init)),
            }
        } else {
            Err(codec_error(ErrorKind::InvalidUnion, Field::Init))
        }
    }
}

pub open spec fn start_session_error(v: StartSessionMessageView) -> Option<CodecError> {
    first_of(
        session_init_error(v.init),
        first_of(
            opt_text_error(v.custom_data, Field::CustomData),
            opt_text_error(v.site_id, Field::SiteId),
        ),
    )
}

/// The boundary form of [`StartSessionMessage`].
pub struct CStartSessionMessage {
    pub init: CSessionInit,
    pub custom_data: Option<CText>,
    pub site_id: Option<CText>,
}

impl CStartSessionMessage {
    pub open spec fn encodes(&self, v: StartSessionMessageView) -> bool {
        &&& self.init.encodes(v.init)
        &&& opt_text_holds(self.custom_data, v.custom_data)
        &&& opt_text_holds(self.site_id, v.site_id)
    }

    pub open spec fn spec_rust(&self) -> Result<StartSessionMessageView, CodecError> {
        match self.init.spec_rust() {
            Ok(init) => Ok(
                StartSessionMessageView {
                    init,
                    custom_data: spec_opt_text(self.custom_data),
                    site_id: spec_opt_text(self.site_id),
                },
            ),
            Err(e) => Err(e),
        }
    }

    pub fn from(input: StartSessionMessage) -> (r: Result<Self, CodecError>)
        ensures
            r is Ok <==> start_session_error(input.deep_view()) is None,
            r matches Ok(c) ==> c.encodes(input.deep_view()),
            r matches Err(e) ==> start_session_error(input.deep_view()) == Some(e),
    {
        Self::c_repr_of(input)
    }

    pub fn to_start_session_message(&self) -> (r: Result<StartSessionMessage, CodecError>)
        ensures
            match r {
                Ok(v) => self.spec_rust() == Ok::<_, CodecError>(v.deep_view()),
                Err(e) => self.spec_rust() == Err::<StartSessionMessageView, _>(e),
            },
    {
        self.as_rust()
    }

    pub fn c_repr_of(input: StartSessionMessage) -> (r: Result<Self, CodecError>)
        ensures
            r is Ok <==> start_session_error(input.deep_view()) is None,
            r matches Ok(c) ==> c.encodes(input.deep_view()),
            r matches Err(e) ==> start_session_error(input.deep_view()) == Some(e),
    {
        let init = match CSessionInit::from(input.init) {
            Ok(c) => c,
            Err(e) => return Err(e),
        };
        let custom_data = match c_opt_text(&input.custom_data, Field::CustomData) {
            Ok(t) => t,
            Err(e) => return Err(e),
        };
        let site_id = match c_opt_text(&input.site_id, Field::SiteId) {
            Ok(t) => t,
            Err(e) => return Err(e),
        };
        Ok(CStartSessionMessage { init, custom_data, site_id })
    }

    pub fn as_rust(&self) -> (r: Result<StartSessionMessage, CodecError>)
        ensures
            match r {
                Ok(v) => self.spec_rust() == Ok::<_, CodecError>(v.deep_view()),
                Err(e) => self.spec_rust() == Err::<StartSessionMessageView, _>(e),
            },
    {
        let init = match self.init.to_session_init() {
            Ok(v) => v,
            Err(e) => return Err(e),
        };
        Ok(StartSessionMessage {
            init,
            custom_data: rust_opt_text(&self.custom_data),
            site_id: rust_opt_text(&self.site_id),
        })
    }
}

} // verus!
