use vstd::prelude::*;

use crate::error::{first_of, CodecError, Field};
use crate::sentinel::{bool_byte, c_bool, rust_bool};
use crate::text::{
    c_opt_strings, c_opt_text, c_text, null_error, opt_strings_error, opt_strings_holds,
    opt_text_error, opt_text_holds, rust_opt_strings, rust_opt_text, rust_text, spec_opt_strings,
    spec_opt_text, text_error, text_holds, text_of, CStringArray, CText,
};

verus! {

/// A session has started on a site, possibly resuming an earlier one.
#[derive(Clone, Debug, PartialEq)]
pub struct SessionStartedMessage {
    pub session_id: String,
    pub custom_data: Option<String>,
    pub site_id: String,
    pub reactivated_from_session_id: Option<String>,
}

pub struct SessionStartedMessageView {
    pub session_id: Seq<char>,
    pub custom_data: Option<Seq<char>>,
    pub site_id: Seq<char>,
    pub reactivated_from_session_id: Option<Seq<char>>,
}

impl DeepView for SessionStartedMessage {
    type V = SessionStartedMessageView;

    open spec fn deep_view(&self) -> SessionStartedMessageView {
        SessionStartedMessageView {
            session_id: self.session_id@,
            custom_data: self.custom_data.deep_view(),
            site_id: self.site_id@,
            reactivated_from_session_id: self.reactivated_from_session_id.deep_view(),
        }
    }
}

pub open spec fn session_started_error(v: SessionStartedMessageView) -> Option<CodecError> {
    first_of(
        text_error(v.session_id, Field::SessionId),
        first_of(
            opt_text_error(v.custom_data, Field::CustomData),
            first_of(
                text_error(v.site_id, Field::SiteId),
                opt_text_error(v.reactivated_from_session_id, Field::ReactivatedFromSessionId),
            ),
        ),
    )
}

/// The boundary form of [`SessionStartedMessage`].
pub struct CSessionStartedMessage {
    pub session_id: Option<CText>,
    pub custom_data: Option<CText>,
    pub site_id: Option<CText>,
    pub reactivated_from_session_id: Option<CText>,
}

impl CSessionStartedMessage {
    pub open spec fn encodes(&self, v: SessionStartedMessageView) -> bool {
        &&& text_holds(self.session_id, v.session_id)
        &&& opt_text_holds(self.custom_data, v.custom_data)
        &&& text_holds(self.site_id, v.site_id)
        &&& opt_text_holds(self.reactivated_from_session_id, v.reactivated_from_session_id)
    }

    pub open spec fn spec_rust(&self) -> Result<SessionStartedMessageView, CodecError> {
        match first_of(
            null_error(self.session_id, Field::SessionId),
            null_error(self.site_id, Field::SiteId),
        ) {
            Some(e) => Err(e),
            None => Ok(
                SessionStartedMessageView {
                    session_id: text_of(self.session_id),
                    custom_data: spec_opt_text(self.custom_data),
                    site_id: text_of(self.site_id),
                    reactivated_from_session_id: spec_opt_text(self.reactivated_from_session_id),
                },
            ),
        }
    }

    pub fn from(input: SessionStartedMessage) -> (r: Result<Self, CodecError>)
        ensures
            r is Ok <==> session_started_error(input.deep_view()) is None,
            r matches Ok(c) ==> c.encodes(input.deep_view()),
            r matches Err(e) ==> session_started_error(input.deep_view()) == Some(e),
    {
        Self::c_repr_of(input)
    }

    pub fn c_repr_of(input: SessionStartedMessage) -> (r: Result<Self, CodecError>)
        ensures
            r is Ok <==> session_started_error(input.deep_view()) is None,
            r matches Ok(c) ==> c.encodes(input.deep_view()),
            r matches Err(e) ==> session_started_error(input.deep_view()) == Some(e),
    {
        let session_id = match c_text(input.session_id.as_str(), Field::SessionId) {
            Ok(t) => t,
            Err(e) => return Err(e),
        };
        let custom_data = match c_opt_text(&input.custom_data, Field::CustomData) {
            Ok(t) => t,
            Err(e) => return Err(e),
        };
        let site_id = match c_text(input.site_id.as_str(), Field::SiteId) {
            Ok(t) => t,
            Err(e) => return Err(e),
        };
        let reactivated_from_session_id = match c_opt_text(
            &input.reactivated_from_session_id,
            Field::ReactivatedFromSessionId,
        ) {
            Ok(t) => t,
            Err(e) => return Err(e),
        };
        Ok(CSessionStartedMessage { session_id, custom_data, site_id, reactivated_from_session_id })
    }

    pub fn as_rust(&self) -> (r: Result<SessionStartedMessage, CodecError>)
        ensures
            match r {
                Ok(v) => self.spec_rust() == Ok::<_, CodecError>(v.deep_view()),
                Err(e) => self.spec_rust() == Err::<SessionStartedMessageView, _>(e),
            },
    {
        let session_id = match rust_text(&self.session_id, Field::SessionId) {
            Ok(s) => s,
            Err(e) => return Err(e),
        };
        let site_id = match rust_text(&self.site_id, Field::SiteId) {
            Ok(s) => s,
            Err(e) => return Err(e),
        };
        Ok(SessionStartedMessage {
            session_id,
            custom_data: rust_opt_text(&self.custom_data),
            site_id,
            reactivated_from_session_id: rust_opt_text(&self.reactivated_from_session_id),
        })
    }
}

/// A session has been queued behind the one running on its site.
#[derive(Clone, Debug, PartialEq)]
pub struct SessionQueuedMessage {
    pub session_id: String,
    pub custom_data: Option<String>,
    pub site_id: String,
}

pub struct SessionQueuedMessageView {
    pub session_id: Seq<char>,
    pub custom_data: Option<Seq<char>>,
    pub site_id: Seq<char>,
}

impl DeepView for SessionQueuedMessage {
    type V = SessionQueuedMessageView;

    open spec fn deep_view(&self) -> SessionQueuedMessageView {
        SessionQueuedMessageView {
            session_id: self.session_id@,
            custom_data: self.custom_data.deep_view(),
            site_id: self.site_id@,
        }
    }
}

pub open spec fn session_queued_error(v: SessionQueuedMessageView) -> Option<CodecError> {
    first_of(
        text_error(v.session_id, Field::SessionId),
        first_of(
            opt_text_error(v.custom_data, Field::CustomData),
            text_error(v.site_id, Field::SiteId),
        ),
    )
}

/// The boundary form of [`SessionQueuedMessage`].
pub struct CSessionQueuedMessage {
    pub session_id: Option<CText>,
    pub custom_data: Option<CText>,
    pub site_id: Option<CText>,
}

impl CSessionQueuedMessage {
    pub open spec fn encodes(&self, v: SessionQueuedMessageView) -> bool {
        &&& text_holds(self.session_id, v.session_id)
        &&& opt_text_holds(self.custom_data, v.custom_data)
        &&& text_holds(self.site_id, v.site_id)
    }

    pub open spec fn spec_rust(&self) -> Result<SessionQueuedMessageView, CodecError> {
        match first_of(
            null_error(self.session_id, Field::SessionId),
            null_error(self.site_id, Field::SiteId),
        ) {
            Some(e) => Err(e),
            None => Ok(
                SessionQueuedMessageView {
                    session_id: text_of(self.session_id),
                    custom_data: spec_opt_text(self.custom_data),
                    site_id: text_of(self.site_id),
                },
            ),
        }
    }

    pub fn from(input: SessionQueuedMessage) -> (r: Result<Self, CodecError>)
        ensures
            r is Ok <==> session_queued_error(input.deep_view()) is None,
            r matches Ok(c) ==> c.encodes(input.deep_view()),
            r matches Err(e) ==> session_queued_error(input.deep_view()) == Some(e),
    {
        Self::c_repr_of(input)
    }

    pub fn c_repr_of(input: SessionQueuedMessage) -> (r: Result<Self, CodecError>)
        ensures
            r is Ok <==> session_queued_error(input.deep_view()) is None,
            r matches Ok(c) ==> c.encodes(input.deep_view()),
            r matches Err(e) ==> session_queued_error(input.deep_view()) == Some(e),
    {
        let session_id = match c_text(input.session_id.as_str(), Field::SessionId) {
            Ok(t) => t,
            Err(e) => return Err(e),
        };
        let custom_data = match c_opt_text(&input.custom_data, Field::CustomData) {
            Ok(t) => t,
            Err(e) => return Err(e),
        };
        let site_id = match c_text(input.site_id.as_str(), Field::SiteId) {
            Ok(t) => t,
            Err(e) => return Err(e),
        };
        Ok(CSessionQueuedMessage { session_id, custom_data, site_id })
    }

    pub fn as_rust(&self) -> (r: Result<SessionQueuedMessage, CodecError>)
        ensures
            match r {
                Ok(v) => self.spec_rust() == Ok::<_, CodecError>(v.deep_view()),
                Err(e) => self.spec_rust() == Err::<SessionQueuedMessageView, _>(e),
            },
    {
        let session_id = match rust_text(&self.session_id, Field::SessionId) {
            Ok(s) => s,
            Err(e) => return Err(e),
        };
        let site_id = match rust_text(&self.site_id, Field::SiteId) {
            Ok(s) => s,
            Err(e) => return Err(e),
        };
        Ok(SessionQueuedMessage { session_id, custom_data: rust_opt_text(&self.custom_data), site_id })
    }
}

/// Continues a session: say `text`, then listen for the intents of the filter.
#[derive(Clone, Debug, PartialEq)]
pub struct ContinueSessionMessage {
    pub session_id: String,
    pub text: String,
    pub intent_filter: Option<Vec<String>>,
    pub custom_data: Option<String>,
    pub slot: Option<String>,
    pub send_intent_not_recognized: bool,
}

pub struct ContinueSessionMessageView {
    pub session_id: Seq<char>,
    pub text: Seq<char>,
    pub intent_filter: Option<Seq<Seq<char>>>,
    pub custom_data: Option<Seq<char>>,
    pub slot: Option<Seq<char>>,
    pub send_intent_not_recognized: bool,
}

impl DeepView for ContinueSessionMessage {
    type V = ContinueSessionMessageView;

    open spec fn deep_view(&self) -> ContinueSessionMessageView {
        ContinueSessionMessageView {
            session_id: self.session_id@,
            text: self.text@,
            intent_filter: self.intent_filter.deep_view(),
            custom_data: self.custom_data.deep_view(),
            slot: self.slot.deep_view(),
            send_intent_not_recognized: self.send_intent_not_recognized,
        }
    }
}

pub open spec fn continue_session_error(v: ContinueSessionMessageView) -> Option<CodecError> {
    first_of(
        text_error(v.session_id, Field::SessionId),
        first_of(
            text_error(v.text, Field::Text),
            first_of(
                opt_strings_error(v.intent_filter),
                first_of(
                    opt_text_error(v.custom_data, Field::CustomData),
                    opt_text_error(v.slot, Field::Slot),
                ),
            ),
        ),
    )
}

/// The boundary form of [`ContinueSessionMessage`].
pub struct CContinueSessionMessage {
    pub session_id: Option<CText>,
    pub text: Option<CText>,
    pub intent_filter: Option<CStringArray>,
    pub custom_data: Option<CText>,
    pub slot: Option<CText>,
    pub send_intent_not_recognized: u8,
}

impl CContinueSessionMessage {
    pub open spec fn encodes(&self, v: ContinueSessionMessageView) -> bool {
        &&& text_holds(self.session_id, v.session_id)
        &&& text_holds(self.text, v.text)
        &&& opt_strings_holds(self.intent_filter, v.intent_filter)
        &&& opt_text_holds(self.custom_data, v.custom_data)
        &&& opt_text_holds(self.slot, v.slot)
        &&& self.send_intent_not_recognized == bool_byte(v.send_intent_not_recognized)
    }

    pub open spec fn spec_rust(&self) -> Result<ContinueSessionMessageView, CodecError> {
        match first_of(
            null_error(self.session_id, Field::SessionId),
            null_error(self.text, Field::Text),
        ) {
            Some(e) => Err(e),
            None => match spec_opt_strings(self.intent_filter) {
                Err(e) => Err(e),
                Ok(intent_filter) => Ok(
                    ContinueSessionMessageView {
                        session_id: text_of(self.session_id),
                        text: text_of(self.text),
                        intent_filter,
                        custom_data: spec_opt_text(self.custom_data),
                        slot: spec_opt_text(self.slot),
                        send_intent_not_recognized: self.send_intent_not_recognized != 0,
                    },
                ),
            },
        }
    }

    pub fn from(input: ContinueSessionMessage) -> (r: Result<Self, CodecError>)
        ensures
            r is Ok <==> continue_session_error(input.deep_view()) is None,
            r matches Ok(c) ==> c.encodes(input.deep_view()),
            r matches Err(e) ==> continue_session_error(input.deep_view()) == Some(e),
    {
        Self::c_repr_of(input)
    }

    pub fn to_continue_session_message(&self) -> (r: Result<ContinueSessionMessage, CodecError>)
        ensures
            match r {
                Ok(v) => self.spec_rust() == Ok::<_, CodecError>(v.deep_view()),
                Err(e) => self.spec_rust() == Err::<ContinueSessionMessageView, _>(e),
            },
    {
        self.as_rust()
    }

    pub fn c_repr_of(input: ContinueSessionMessage) -> (r: Result<Self, CodecError>)
        ensures
            r is Ok <==> continue_session_error(input.deep_view()) is None,
            r matches Ok(c) ==> c.encodes(input.deep_view()),
            r matches Err(e) ==> continue_session_error(input.deep_view()) == Some(e),
    {
        let session_id = match c_text(input.session_id.as_str(), Field::SessionId) {
            Ok(t) => t,
            Err(e) => return Err(e),
        };
        let text = match c_text(input.text.as_str(), Field::Text) {
            Ok(t) => t,
            Err(e) => return Err(e),
        };
        let intent_filter = match c_opt_strings(input.intent_filter) {
            Ok(a) => a,
            Err(e) => return Err(e),
        };
        let custom_data = match c_opt_text(&input.custom_data, Field::CustomData) {
            Ok(t) => t,
            Err(e) => return Err(e),
        };
        let slot = match c_opt_text(&input.slot, Field::Slot) {
            Ok(t) => t,
            Err(e) => return Err(e),
        };
        Ok(CContinueSessionMessage {
            session_id,
            text,
            intent_filter,
            custom_data,
            slot,
            send_intent_not_recognized: c_bool(input.send_intent_not_recognized),
        })
    }

    pub fn as_rust(&self) -> (r: Result<ContinueSessionMessage, CodecError>)
        ensures
            match r {
                Ok(v) => self.spec_rust() == Ok::<_, CodecError>(v.deep_view()),
                Err(e) => self.spec_rust() == Err::<ContinueSessionMessageView, _>(e),
            },
    {
        let session_id = match rust_text(&self.session_id, Field::SessionId) {
            Ok(s) => s,
            Err(e) => return Err(e),
        };
        let text = match rust_text(&self.text, Field::Text) {
            Ok(s) => s,
            Err(e) => return Err(e),
        };
        let intent_filter = match rust_opt_strings(&self.intent_filter) {
            Ok(v) => v,
            Err(e) => return Err(e),
        };
        Ok(ContinueSessionMessage {
            session_id,
            text,
            intent_filter,
            custom_data: rust_opt_text(&self.custom_data),
            slot: rust_opt_text(&self.slot),
            send_intent_not_recognized: rust_bool(self.send_intent_not_recognized),
        })
    }
}

/// Ends a session, optionally saying a last text.
#[derive(Clone, Debug, PartialEq)]
pub struct EndSessionMessage {
    pub session_id: String,
    pub text: Option<String>,
}

pub struct EndSessionMessageView {
    pub session_id: Seq<char>,
    pub text: Option<Seq<char>>,
}

impl DeepView for EndSessionMessage {
    type V = EndSessionMessageView;

    open spec fn deep_view(&self) -> EndSessionMessageView {
        EndSessionMessageView { session_id: self.session_id@, text: self.text.deep_view() }
    }
}

pub open spec fn end_session_error(v: EndSessionMessageView) -> Option<CodecError> {
    first_of(text_error(v.session_id, Field::SessionId), opt_text_error(v.text, Field::Text))
}

/// The boundary form of [`EndSessionMessage`].
pub struct CEndSessionMessage {
    pub session_id: Option<CText>,
    pub text: Option<CText>,
}

impl CEndSessionMessage {
    pub open spec fn encodes(&self, v: EndSessionMessageView) -> bool {
        &&& text_holds(self.session_id, v.session_id)
        &&& opt_text_holds(self.text, v.text)
    }

    pub open spec fn spec_rust(&self) -> Result<EndSessionMessageView, CodecError> {
        match null_error(self.session_id, Field::SessionId) {
            Some(e) => Err(e),
            None => Ok(
                EndSessionMessageView {
                    session_id: text_of(self.session_id),
                    text: spec_opt_text(self.text),
                },
            ),
        }
    }

    pub fn from(input: EndSessionMessage) -> (r: Result<Self, CodecError>)
        ensures
            r is Ok <==> end_session_error(input.deep_view()) is None,
            r matches Ok(c) ==> c.encodes(input.deep_view()),
            r matches Err(e) ==> end_session_error(input.deep_view()) == Some(e),
    {
        Self::c_repr_of(input)
    }

    pub fn to_end_session_message(&self) -> (r: Result<EndSessionMessage, CodecError>)
        ensures
            match r {
                Ok(v) => self.spec_rust() == Ok::<_, CodecError>(v.deep_view()),
                Err(e) => self.spec_rust() == Err::<EndSessionMessageView, _>(e),
            },
    {
        self.as_rust()
    }

    pub fn c_repr_of(input: EndSessionMessage) -> (r: Result<Self, CodecError>)
        ensures
            r is Ok <==> end_session_error(input.deep_view()) is None,
            r matches Ok(c) ==> c.encodes(input.deep_view()),
            r matches Err(e) ==> end_session_error(input.deep_view()) == Some(e),
    {
        let session_id = match c_text(input.session_id.as_str(), Field::SessionId) {
            Ok(t) => t,
            Err(e) => return Err(e),
        };
        let text = match c_opt_text(&input.text, Field::Text) {
            Ok(t) => t,
            Err(e) => return Err(e),
        };
        Ok(CEndSessionMessage { session_id, text })
    }

    pub fn as_rust(&self) -> (r: Result<EndSessionMessage, CodecError>)
        ensures
            match r {
                Ok(v) => self.spec_rust() == Ok::<_, CodecError>(v.deep_view()),
                Err(e) => self.spec_rust() == Err::<EndSessionMessageView, _>(e),
            },
    {
        let session_id = match rust_text(&self.session_id, Field::SessionId) {
            Ok(s) => s,
            Err(e) => return Err(e),
        };
        Ok(EndSessionMessage { session_id, text: rust_opt_text(&self.text) })
    }
}

} // verus!
