//! The verified control operations: set digitizer power, report pen presence.

use vstd::prelude::*;

use crate::model::AttrState;
use crate::model::StylusError;
use crate::model::power_text;
use crate::model::spec_pen_present;
use crate::model::spec_pen_status_result;
use crate::model::spec_pen_status_state;
use crate::model::spec_set_power;
use crate::model::spec_set_power_result;
use crate::model::text_view;

verus! {

/// The text value written to the digitizer power attribute for a desired
/// enable state.
pub fn power_value(enabled: bool) -> (r: String)
    ensures
        r@ == power_text(enabled),
{
    if enabled {
        "1".to_owned()
    } else {
        "0".to_owned()
    }
}

/// Whether a presence attribute read indicates a paired pen: the read
/// succeeded and did not yield the string `"0"`.
pub fn pen_present(presence: &Option<String>) -> (r: bool)
    ensures
        r == spec_pen_present(text_view(*presence)),
{
    match presence {
        Some(text) => {
            let absent: String = "0".to_owned();
            !(*text == absent)
        },
        None => false,
    }
}

/// Turns the outcome of the underlying digitizer write into what the status
/// query reports: the presence boolean when the write went through,
/// permission denied when it did not. A write failure is never suppressed,
/// so reported status and power state stay consistent.
pub fn report_status(present: bool, write_ok: bool) -> (r: Result<bool, StylusError>)
    ensures
        write_ok ==> r == Ok::<bool, StylusError>(present),
        !write_ok ==> r == Err::<bool, StylusError>(StylusError::PermissionDenied),
{
    if write_ok {
        Ok(present)
    } else {
        Err(StylusError::PermissionDenied)
    }
}

/// The control object behind the stylus service. It is stateless: every
/// operation is a transition on the attribute snapshot handed to it.
pub struct XiaomiStylusControl;

impl XiaomiStylusControl {
    /// Sets digitizer power: writes `"1"` to the digitizer power attribute
    /// when `enabled` is true, else `"0"`, and reports success. When the
    /// attribute is unwritable the operation fails with permission denied,
    /// no retry is made, and no attribute changes.
    #[allow(non_snake_case)]
    pub fn PenControl(&self, attrs: &mut AttrState, enabled: bool) -> (r: Result<
        bool,
        StylusError,
    >)
        ensures
            final(attrs)@ == spec_set_power(old(attrs)@, enabled),
            r == spec_set_power_result(old(attrs)@),
    {
        if attrs.digitizer_writable {
            attrs.digitizer = Some(power_value(enabled));
            Ok(true)
        } else {
            Err(StylusError::PermissionDenied)
        }
    }

    /// Reports whether a pen is present and, as a side effect, keeps
    /// digitizer power consistent with presence: present powers the
    /// digitizer on, absent (attribute missing or `"0"`) powers it off. A
    /// failure of the internal power write propagates to the caller.
    #[allow(non_snake_case)]
    pub fn getPenStatus(&self, attrs: &mut AttrState) -> (r: Result<bool, StylusError>)
        ensures
            final(attrs)@ == spec_pen_status_state(old(attrs)@),
            r == spec_pen_status_result(old(attrs)@),
    {
        let present = pen_present(&attrs.presence);
        match self.PenControl(attrs, present) {
            Ok(_) => Ok(present),
            Err(e) => Err(e),
        }
    }
}

} // verus!
