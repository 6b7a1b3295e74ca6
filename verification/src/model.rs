//! Model of the two kernel attribute files and the specification of every
//! operation the service exposes.

use vstd::prelude::*;

verus! {

/// Error surfaced to a caller of the service. An attribute write that fails
/// (unwritable path, missing path) is reported as a permission-denied error;
/// no other error is ever produced.
#[derive(Clone, Copy, Debug, PartialEq, Eq, Structural)]
pub enum StylusError {
    PermissionDenied,
}

/// Snapshot of the two kernel-owned attribute files the service reads and
/// writes. The kernel driver, not this process, owns the real state; the
/// service itself is stateless and recomputes everything from the attributes
/// on every call, so each operation is a transition on such a snapshot.
///
/// `None` as an attribute's content means the file is absent or unreadable.
/// `digitizer_writable` says whether writes to the digitizer power attribute
/// succeed; a pen presence attribute is never written.
pub struct AttrState {
    /// Content of the digitizer power attribute (`"0"` off, `"1"` on).
    pub digitizer: Option<String>,
    /// Whether a write to the digitizer power attribute succeeds.
    pub digitizer_writable: bool,
    /// Content of the pen presence attribute (a MAC string when a pen is
    /// paired, `"0"` or absent otherwise).
    pub presence: Option<String>,
}

/// Ghost image of an `AttrState`: attribute contents as character sequences.
#[verifier::ext_equal]
pub ghost struct AttrsView {
    pub digitizer: Option<Seq<char>>,
    pub digitizer_writable: bool,
    pub presence: Option<Seq<char>>,
}

/// Content of an optional textual attribute, as a character sequence.
pub open spec fn text_view(t: Option<String>) -> Option<Seq<char>> {
    match t {
        Some(s) => Some(s@),
        None => None,
    }
}

impl View for AttrState {
    type V = AttrsView;

    open spec fn view(&self) -> AttrsView {
        AttrsView {
            digitizer: text_view(self.digitizer),
            digitizer_writable: self.digitizer_writable,
            presence: text_view(self.presence),
        }
    }
}

/// Text written to the digitizer power attribute: `"1"` enables the
/// digitizer, `"0"` disables it.
pub open spec fn power_text(enabled: bool) -> Seq<char> {
    if enabled {
        "1"@
    } else {
        "0"@
    }
}

/// A pen counts as present exactly when the presence attribute is readable
/// and its content is not the string `"0"`. An absent attribute (no
/// wireless pen-charging hardware) is the normal signal for "no pen", not an
/// error.
pub open spec fn spec_pen_present(presence: Option<Seq<char>>) -> bool {
    match presence {
        Some(text) => text != "0"@,
        None => false,
    }
}

/// Effect of the set-power operation on the attributes: when the digitizer
/// attribute is writable its content becomes `power_text(enabled)` and
/// nothing else changes; when it is unwritable no attribute changes at all.
pub open spec fn spec_set_power(st: AttrsView, enabled: bool) -> AttrsView {
    if st.digitizer_writable {
        AttrsView { digitizer: Some(power_text(enabled)), ..st }
    } else {
        st
    }
}

/// Value returned by the set-power operation: success when the write went
/// through, permission denied when it did not.
pub open spec fn spec_set_power_result(st: AttrsView) -> Result<bool, StylusError> {
    if st.digitizer_writable {
        Ok(true)
    } else {
        Err(StylusError::PermissionDenied)
    }
}

/// Effect of the status query on the attributes: presence drives power, so
/// the digitizer is powered on when a pen is present and off when it is not.
/// The query never writes the presence attribute.
pub open spec fn spec_pen_status_state(st: AttrsView) -> AttrsView {
    spec_set_power(st, spec_pen_present(st.presence))
}

/// Value returned by the status query: the presence boolean, unless the
/// internal set-power call failed, in which case that failure propagates so
/// that reported status and power state stay consistent.
pub open spec fn spec_pen_status_result(st: AttrsView) -> Result<bool, StylusError> {
    match spec_set_power_result(st) {
        Ok(_) => Ok(spec_pen_present(st.presence)),
        Err(e) => Err(e),
    }
}

/// Law: for every `enabled`, a set-power call whose underlying write
/// succeeds leaves the digitizer attribute reading back exactly `"1"` when
/// enabling and `"0"` when disabling, reports success, and touches nothing
/// else.
pub proof fn lemma_set_power_readback(st: AttrsView, enabled: bool)
    requires
        st.digitizer_writable,
    ensures
        spec_set_power(st, enabled).digitizer == Some(if enabled {
            "1"@
        } else {
            "0"@
        }),
        spec_set_power(st, enabled).presence == st.presence,
        spec_set_power(st, enabled).digitizer_writable == st.digitizer_writable,
        spec_set_power_result(st) == Ok::<bool, StylusError>(true),
{
}

/// Law: when the digitizer attribute is unwritable, set-power fails with
/// permission denied and no attribute changes at all — there is no partial
/// state change.
pub proof fn lemma_set_power_denied(st: AttrsView, enabled: bool)
    requires
        !st.digitizer_writable,
    ensures
        spec_set_power(st, enabled) == st,
        spec_set_power_result(st) == Err::<bool, StylusError>(StylusError::PermissionDenied),
{
}

/// Law: with the presence attribute absent or equal to `"0"`, and the
/// digitizer attribute writable, the status query reports `false` and sets
/// the digitizer attribute to `"0"`.
pub proof fn lemma_status_pen_absent(st: AttrsView)
    requires
        st.digitizer_writable,
        !spec_pen_present(st.presence),
    ensures
        spec_pen_status_result(st) == Ok::<bool, StylusError>(false),
        spec_pen_status_state(st).digitizer == Some("0"@),
{
}

/// Law: with the presence attribute readable and not `"0"`, and the
/// digitizer attribute writable, the status query reports `true` and sets
/// the digitizer attribute to `"1"`.
pub proof fn lemma_status_pen_present(st: AttrsView)
    requires
        st.digitizer_writable,
        spec_pen_present(st.presence),
    ensures
        spec_pen_status_result(st) == Ok::<bool, StylusError>(true),
        spec_pen_status_state(st).digitizer == Some("1"@),
{
}

/// Law: the status query is idempotent. Since it never changes the presence
/// attribute, a second query on the state the first one left behind reports
/// the same boolean and leaves the attributes exactly as the first did —
/// the repeated power write is a no-op-equivalent write of the same value.
pub proof fn lemma_status_idempotent(st: AttrsView)
    ensures
        spec_pen_status_state(spec_pen_status_state(st)) == spec_pen_status_state(st),
        spec_pen_status_result(spec_pen_status_state(st)) == spec_pen_status_result(st),
{
}

} // verus!
