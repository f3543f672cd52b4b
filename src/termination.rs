use vstd::prelude::*;

use crate::error::{codec_error, err, first_of, CodecError, ErrorKind, Field};
use crate::text::{
    c_opt_text, c_text, null_error, opt_text_error, opt_text_holds, rust_opt_text, rust_text,
    spec_opt_text, text_error, text_holds, text_of, CText,
};

verus! {

/// Why a session ended.
#[derive(Clone, Debug, PartialEq)]
pub enum SessionTerminationType {
    Nominal,
    SiteUnavailable,
    AbortedByUser,
    IntentNotRecognized,
    Timeout,
    Error { error: String },
}

pub enum SessionTerminationTypeView {
    Nominal,
    SiteUnavailable,
    AbortedByUser,
    IntentNotRecognized,
    Timeout,
    Error { error: Seq<char> },
}

impl DeepView for SessionTerminationType {
    type V = SessionTerminationTypeView;

    open spec fn deep_view(&self) -> SessionTerminationTypeView {
        match self {
            SessionTerminationType::Nominal => SessionTerminationTypeView::Nominal,
            SessionTerminationType::SiteUnavailable => SessionTerminationTypeView::SiteUnavailable,
            SessionTerminationType::AbortedByUser => SessionTerminationTypeView::AbortedByUser,
            SessionTerminationType::IntentNotRecognized => SessionTerminationTypeView::IntentNotRecognized,
            SessionTerminationType::Timeout => SessionTerminationTypeView::Timeout,
            SessionTerminationType::Error { error } => SessionTerminationTypeView::Error { error: error@ },
        }
    }
}

/// The discriminant of [`CSessionTermination`]; its codes run from 1 to 6.
#[allow(non_camel_case_types)]
#[derive(Clone, Copy, Debug, PartialEq, Eq, Structural)]
pub enum SNIPS_SESSION_TERMINATION_TYPE {
    SNIPS_SESSION_TERMINATION_TYPE_NOMINAL,
    SNIPS_SESSION_TERMINATION_TYPE_SITE_UNAVAILABLE,
    SNIPS_SESSION_TERMINATION_TYPE_ABORTED_BY_USER,
    SNIPS_SESSION_TERMINATION_TYPE_INTENT_NOT_RECOGNIZED,
    SNIPS_SESSION_TERMINATION_TYPE_TIMEOUT,
    SNIPS_SESSION_TERMINATION_TYPE_ERROR,
}

pub const TERMINATION_NOMINAL: u32 = 1;

pub const TERMINATION_SITE_UNAVAILABLE: u32 = 2;

pub const TERMINATION_ABORTED_BY_USER: u32 = 3;

pub const TERMINATION_INTENT_NOT_RECOGNIZED: u32 = 4;

pub const TERMINATION_TIMEOUT: u32 = 5;

pub const TERMINATION_ERROR: u32 = 6;

pub open spec fn termination_code(v: SessionTerminationTypeView) -> u32 {
    match v {
        SessionTerminationTypeView::Nominal => TERMINATION_NOMINAL,
        SessionTerminationTypeView::SiteUnavailable => TERMINATION_SITE_UNAVAILABLE,
        SessionTerminationTypeView::AbortedByUser => TERMINATION_ABORTED_BY_USER,
        SessionTerminationTypeView::IntentNotRecognized => TERMINATION_INTENT_NOT_RECOGNIZED,
        SessionTerminationTypeView::Timeout => TERMINATION_TIMEOUT,
        SessionTerminationTypeView::Error { .. } => TERMINATION_ERROR,
    }
}

impl SNIPS_SESSION_TERMINATION_TYPE {
    pub open spec fn code_spec(&self) -> u32 {
        match self {
            SNIPS_SESSION_TERMINATION_TYPE::SNIPS_SESSION_TERMINATION_TYPE_NOMINAL => TERMINATION_NOMINAL,
            SNIPS_SESSION_TERMINATION_TYPE::SNIPS_SESSION_TERMINATION_TYPE_SITE_UNAVAILABLE => TERMINATION_SITE_UNAVAILABLE,
            SNIPS_SESSION_TERMINATION_TYPE::SNIPS_SESSION_TERMINATION_TYPE_ABORTED_BY_USER => TERMINATION_ABORTED_BY_USER,
            SNIPS_SESSION_TERMINATION_TYPE::SNIPS_SESSION_TERMINATION_TYPE_INTENT_NOT_RECOGNIZED => TERMINATION_INTENT_NOT_RECOGNIZED,
            SNIPS_SESSION_TERMINATION_TYPE::SNIPS_SESSION_TERMINATION_TYPE_TIMEOUT => TERMINATION_TIMEOUT,
            SNIPS_SESSION_TERMINATION_TYPE::SNIPS_SESSION_TERMINATION_TYPE_ERROR => TERMINATION_ERROR,
        }
    }

    pub fn from(termination_type: &SessionTerminationType) -> (r: Self)
        ensures
            r.code_spec() == termination_code(termination_type.deep_view()),
    {
        match termination_type {
            SessionTerminationType::Nominal => {
                SNIPS_SESSION_TERMINATION_TYPE::SNIPS_SESSION_TERMINATION_TYPE_NOMINAL
            },
            SessionTerminationType::SiteUnavailable => {
                SNIPS_SESSION_TERMINATION_TYPE::SNIPS_SESSION_TERMINATION_TYPE_SITE_UNAVAILABLE
            },
            SessionTerminationType::AbortedByUser => {
                SNIPS_SESSION_TERMINATION_TYPE::SNIPS_SESSION_TERMINATION_TYPE_ABORTED_BY_USER
            },
            SessionTerminationType::IntentNotRecognized => {
                SNIPS_SESSION_TERMINATION_TYPE::SNIPS_SESSION_TERMINATION_TYPE_INTENT_NOT_RECOGNIZED
            },
            SessionTerminationType::Timeout => {
                SNIPS_SESSION_TERMINATION_TYPE::SNIPS_SESSION_TERMINATION_TYPE_TIMEOUT
            },
            SessionTerminationType::Error { .. } => {
                SNIPS_SESSION_TERMINATION_TYPE::SNIPS_SESSION_TERMINATION_TYPE_ERROR
            },
        }
    }

    /// The code written in the discriminant field.
    pub fn code(&self) -> (r: u32)
        ensures
            r == self.code_spec(),
    {
        match self {
            SNIPS_SESSION_TERMINATION_TYPE::SNIPS_SESSION_TERMINATION_TYPE_NOMINAL => TERMINATION_NOMINAL,
            SNIPS_SESSION_TERMINATION_TYPE::SNIPS_SESSION_TERMINATION_TYPE_SITE_UNAVAILABLE => TERMINATION_SITE_UNAVAILABLE,
            SNIPS_SESSION_TERMINATION_TYPE::SNIPS_SESSION_TERMINATION_TYPE_ABORTED_BY_USER => TERMINATION_ABORTED_BY_USER,
            SNIPS_SESSION_TERMINATION_TYPE::SNIPS_SESSION_TERMINATION_TYPE_INTENT_NOT_RECOGNIZED => TERMINATION_INTENT_NOT_RECOGNIZED,
            SNIPS_SESSION_TERMINATION_TYPE::SNIPS_SESSION_TERMINATION_TYPE_TIMEOUT => TERMINATION_TIMEOUT,
            SNIPS_SESSION_TERMINATION_TYPE::SNIPS_SESSION_TERMINATION_TYPE_ERROR => TERMINATION_ERROR,
        }
    }
}

pub open spec fn termination_error(v: SessionTerminationTypeView) -> Option<CodecError> {
    match v {
        SessionTerminationTypeView::Error { error } => text_error(error, Field::Termination),
        _ => None,
    }
}

/// A termination: a discriminant, and a text that only the error kind carries.
pub struct CSessionTermination {
    pub termination_type: u32,
    pub data: Option<CText>,
}

impl CSessionTermination {
    pub open spec fn encodes(&self, v: SessionTerminationTypeView) -> bool {
        &&& self.termination_type == termination_code(v)
        &&& match v {
            SessionTerminationTypeView::Error { error } => text_holds(self.data, error),
            _ => self.data is None,
        }
    }

    pub open spec fn spec_rust(&self) -> Result<SessionTerminationTypeView, CodecError> {
        let t = self.termination_type;
        if t == TERMINATION_NOMINAL {
            Ok(SessionTerminationTypeView::Nominal)
        } else if t == TERMINATION_SITE_UNAVAILABLE {
            Ok(SessionTerminationTypeView::SiteUnavailable)
        } else if t == TERMINATION_ABORTED_BY_USER {
            Ok(SessionTerminationTypeView::AbortedByUser)
        } else if t == TERMINATION_INTENT_NOT_RECOGNIZED {
            Ok(SessionTerminationTypeView::IntentNotRecognized)
        } else if t == TERMINATION_TIMEOUT {
            Ok(SessionTerminationTypeView::Timeout)
        } else if t == TERMINATION_ERROR {
            match self.data {
                Some(d) => Ok(SessionTerminationTypeView::Error { error: d@ }),
                None => Err(err(ErrorKind::NullPointer, Field::Termination)),
            }
        } else {
            Err(err(ErrorKind::InvalidUnion, Field::Termination))
        }
    }

    pub fn from(termination: SessionTerminationType) -> (r: Result<Self, CodecError>)
        ensures
            r is Ok <==> termination_error(termination.deep_view()) is None,
            r matches Ok(c) ==> c.encodes(termination.deep_view()),
            r matches Err(e) ==> termination_error(termination.deep_view()) == Some(e),
    {
        let termination_type = SNIPS_SESSION_TERMINATION_TYPE::from(&termination).code();
        let data = match termination {
            SessionTerminationType::Error { error } => match c_text(error.as_str(), Field::Termination) {
                Ok(t) => t,
                Err(e) => return Err(e),
            },
            _ => None,
        };
        Ok(CSessionTermination { termination_type, data })
    }

    pub fn as_rust(&self) -> (r: Result<SessionTerminationType, CodecError>)
        ensures
            match r {
                Ok(v) => self.spec_rust() == Ok::<_, CodecError>(v.deep_view()),
                Err(e) => self.spec_rust() == Err::<SessionTerminationTypeView, _>(e),
            },
    {
        let t = self.termination_type;
        if t == TERMINATION_NOMINAL {
            Ok(SessionTerminationType::Nominal)
        } else if t == TERMINATION_SITE_UNAVAILABLE {
            Ok(SessionTerminationType::SiteUnavailable)
        } else if t == TERMINATION_ABORTED_BY_USER {
            Ok(SessionTerminationType::AbortedByUser)
        } else if t == TERMINATION_INTENT_NOT_RECOGNIZED {
            Ok(SessionTerminationType::IntentNotRecognized)
        } else if t == TERMINATION_TIMEOUT {
            Ok(SessionTerminationType::Timeout)
        } else if t == TERMINATION_ERROR {
            match rust_text(&self.data, Field::Termination) {
                Ok(error) => Ok(SessionTerminationType::Error { error }),
                Err(e) => Err(e),
            }
        } else {
            Err(codec_error(ErrorKind::InvalidUnion, Field::Termination))
        }
    }
}

/// A session has ended on a site.
#[derive(Clone, Debug, PartialEq)]
pub struct SessionEndedMessage {
    pub session_id: String,
    pub custom_data: Option<String>,
    pub termination: SessionTerminationType,
    pub site_id: String,
}

pub struct SessionEndedMessageView {
    pub session_id: Seq<char>,
    pub custom_data: Option<Seq<char>>,
    pub termination: SessionTerminationTypeView,
    pub site_id: Seq<char>,
}

impl DeepView for SessionEndedMessage {
    type V = SessionEndedMessageView;

    open spec fn deep_view(&self) -> SessionEndedMessageView {
        SessionEndedMessageView {
            session_id: self.session_id@,
            custom_data: self.custom_data.deep_view(),
            termination: self.termination.deep_view(),
            site_id: self.site_id@,
        }
    }
}

pub open spec fn session_ended_error(v: SessionEndedMessageView) -> Option<CodecError> {
    first_of(
        text_error(v.session_id, Field::SessionId),
        first_of(
            opt_text_error(v.custom_data, Field::CustomData),
            first_of(termination_error(v.termination), text_error(v.site_id, Field::SiteId)),
        ),
    )
}

/// The boundary form of [`SessionEndedMessage`].
pub struct CSessionEndedMessage {
    pub session_id: Option<CText>,
    pub custom_data: Option<CText>,
    pub termination: CSessionTermination,
    pub site_id: Option<CText>,
}

impl CSessionEndedMessage {
    pub open spec fn encodes(&self, v: SessionEndedMessageView) -> bool {
        &&& text_holds(self.session_id, v.session_id)
        &&& opt_text_holds(self.custom_data, v.custom_data)
        &&& self.termination.encodes(v.termination)
        &&& text_holds(self.site_id, v.site_id)
    }

    pub open spec fn spec_rust(&self) -> Result<SessionEndedMessageView, CodecError> {
        match null_error(self.session_id, Field::SessionId) {
            Some(e) => Err(e),
            None => match self.termination.spec_rust() {
                Err(e) => Err(e),
                Ok(termination) => match null_error(self.site_id, Field::SiteId) {
                    Some(e) => Err(e),
                    None => Ok(
                        SessionEndedMessageView {
                            session_id: text_of(self.session_id),
                            custom_data: spec_opt_text(self.custom_data),
                            termination,
                            site_id: text_of(self.site_id),
                        },
                    ),
                },
            },
        }
    }

    pub fn from(input: SessionEndedMessage) -> (r: Result<Self, CodecError>)
        ensures
            r is Ok <==> session_ended_error(input.deep_view()) is None,
            r matches Ok(c) ==> c.encodes(input.deep_view()),
            r matches Err(e) ==> session_ended_error(input.deep_view()) == Some(e),
    {
        Self::c_repr_of(input)
    }

    pub fn c_repr_of(input: SessionEndedMessage) -> (r: Result<Self, CodecError>)
        ensures
            r is Ok <==> session_ended_error(input.deep_view()) is None,
            r matches Ok(c) ==> c.encodes(input.deep_view()),
            r matches Err(e) ==> session_ended_error(input.deep_view()) == Some(e),
    {
        let session_id = match c_text(input.session_id.as_str(), Field::SessionId) {
            Ok(t) => t,
            Err(e) => return Err(e),
        };
        let custom_data = match c_opt_text(&input.custom_data, Field::CustomData) {
            Ok(t) => t,
            Err(e) => return Err(e),
        };
        let termination = match CSessionTermination::from(input.termination) {
            Ok(t) => t,
            Err(e) => return Err(e),
        };
        let site_id = match c_text(input.site_id.as_str(), Field::SiteId) {
            Ok(t) => t,
            Err(e) => return Err(e),
        };
        Ok(CSessionEndedMessage { session_id, custom_data, termination, site_id })
    }

    pub fn as_rust(&self) -> (r: Result<SessionEndedMessage, CodecError>)
        ensures
            match r {
                Ok(v) => self.spec_rust() == Ok::<_, CodecError>(v.deep_view()),
                Err(e) => self.spec_rust() == Err::<SessionEndedMessageView, _>(e),
            },
    {
        let session_id = match rust_text(&self.session_id, Field::SessionId) {
            Ok(s) => s,
            Err(e) => return Err(e),
        };
        let termination = match self.termination.as_rust() {
            Ok(t) => t,
            Err(e) => return Err(e),
        };
        let site_id = match rust_text(&self.site_id, Field::SiteId) {
            Ok(s) => s,
            Err(e) => return Err(e),
        };
        Ok(SessionEndedMessage {
            session_id,
            custom_data: rust_opt_text(&self.custom_data),
            termination,
            site_id,
        })
    }
}

} // verus!
