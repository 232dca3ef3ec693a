//! Committing a CCD topology. The kernel calls are made by the caller; this
//! module decides whether there is anything to send, checks the geometry,
//! chooses the flags, lists the device-info requests and keeps the staged
//! state in step with what happened.
use vstd::prelude::*;
use vstd::string::StringExecFns;

use super::displmgr_ccd_sys::{
    make_hdr_payload, make_scale_payload, payload_percent, to_payload_percent, hdr_payload, scale_payload,
    CcdPath, CcdRawData, DeviceInfoRequest, SDC_APPLY, SDC_SAVE_TO_DATABASE,
    SDC_USE_SUPPLIED_DISPLAY_CONFIG, SDC_VALIDATE,
};
use super::{path_index, CcdTopology, CcdView};
use crate::backends::overlap::{check_overlap, has_overlap};
use crate::error::{DisplayError, DisplayResult};
use crate::text::{i32_to_decimal, signed_decimal};
use crate::types::{HdrMode, HdrState, OutputState, Rect};

verus! {

/// Something has been staged: the records changed, or a scale or HDR change
/// waits.
pub open spec fn ccd_has_work(t: CcdView) -> bool {
    t.dirty || t.scales.len() > 0 || t.hdr.len() > 0
}

/// A commit has something to send: work is staged and there are paths.
pub open spec fn ccd_needs_commit(t: CcdView) -> bool {
    ccd_has_work(t) && t.paths.len() > 0
}

/// The outputs as the geometry check sees them: an output takes part when it
/// is enabled and has a positive width and height.
pub open spec fn ccd_active_rects(outputs: Seq<OutputState>) -> Seq<(bool, Rect)> {
    outputs.map_values(
        |o: OutputState|
            (o.enabled && o.geometry.size.width > 0 && o.geometry.size.height > 0, o.geometry),
    )
}

/// The `SetDisplayConfig` flags of a commit.
pub open spec fn ccd_apply_flags(persist: bool) -> u32 {
    if persist {
        SDC_APPLY | SDC_USE_SUPPLIED_DISPLAY_CONFIG | SDC_SAVE_TO_DATABASE
    } else {
        SDC_APPLY | SDC_USE_SUPPLIED_DISPLAY_CONFIG
    }
}

/// The DPI requests for the staged scales, in order, of the targets that
/// have a path.
pub open spec fn scale_requests(paths: Seq<CcdPath>, scales: Seq<(u32, u32)>) -> Seq<DeviceInfoRequest>
    decreases scales.len(),
{
    if scales.len() == 0 {
        Seq::empty()
    } else {
        let e = scales.last();
        scale_requests(paths, scales.drop_last()) + match path_index(paths, e.0) {
            Some(p) => seq![DeviceInfoRequest::Scale(scale_payload(paths[p], payload_percent(e.1)))],
            None => Seq::empty(),
        }
    }
}

/// The HDR requests for the staged HDR changes, in order, of the targets that
/// have a path.
pub open spec fn hdr_requests(paths: Seq<CcdPath>, hdr: Seq<(u32, (HdrState, HdrMode))>) -> Seq<
    DeviceInfoRequest,
>
    decreases hdr.len(),
{
    if hdr.len() == 0 {
        Seq::empty()
    } else {
        let e = hdr.last();
        hdr_requests(paths, hdr.drop_last()) + match path_index(paths, e.0) {
            Some(p) => seq![DeviceInfoRequest::Hdr(hdr_payload(paths[p], e.1.0 == HdrState::Enabled))],
            None => Seq::empty(),
        }
    }
}

/// The text of a failed configuration apply.
pub open spec fn apply_failure_text(status: i32) -> Seq<char> {
    seq![
        'S', 'e', 't', 'D', 'i', 's', 'p', 'l', 'a', 'y', 'C', 'o', 'n', 'f', 'i', 'g', ' ', 'f', 'a',
        'i', 'l', 'e', 'd', ':', ' '
    ] + signed_decimal(status as int)
}

/// Nothing staged, as after a commit.
pub open spec fn ccd_cleared(t: CcdView) -> CcdView {
    CcdView { scales: Seq::empty(), hdr: Seq::empty(), dirty: false, ..t }
}

/// The device-info requests a commit sends: the DPI scales, then the HDR
/// states.
pub open spec fn ccd_requests(t: CcdView) -> Seq<DeviceInfoRequest> {
    scale_requests(t.paths, t.scales) + hdr_requests(t.paths, t.hdr)
}

/// The flags of the kernel's check of the staged configuration.
pub open spec fn ccd_validate_flags() -> u32 {
    SDC_VALIDATE | SDC_USE_SUPPLIED_DISPLAY_CONFIG
}

/// The next thing a CCD commit or validation asks of the system, or how it
/// ends.
#[derive(Debug)]
pub enum CcdCommitAction {
    /// The run ends with this result.
    Finish(DisplayResult<()>),
    /// Check the staged records with `SetDisplayConfig` and these flags, and
    /// report the status it returns.
    Validate(u32),
    /// Apply the staged records with `SetDisplayConfig` and these flags, and
    /// report the status it returns.
    Apply(u32),
    /// Send these device-info requests in order, then query the records
    /// afresh and report them.
    SendDeviceInfo(Vec<DeviceInfoRequest>),
}

/// A step of a CCD commit, by value.
pub enum CcdStep {
    /// Ends successfully.
    Done,
    /// Ends with [`DisplayError::ConfigurationRejected`].
    Rejected,
    /// Ends because the kernel refused to apply the configuration.
    ApplyFailed,
    /// Asks for the kernel's check with these flags.
    Validate(u32),
    /// Asks for the configuration to be applied with these flags.
    Apply(u32),
    /// Asks for these device-info requests to be sent.
    Send(Seq<DeviceInfoRequest>),
}

/// The step an action stands for.
pub open spec fn step_of(a: CcdCommitAction) -> CcdStep {
    match a {
        CcdCommitAction::Finish(r) => match r {
            Ok(_) => CcdStep::Done,
            Err(e) => if e is ConfigurationRejected {
                CcdStep::Rejected
            } else {
                CcdStep::ApplyFailed
            },
        },
        CcdCommitAction::Validate(f) => CcdStep::Validate(f),
        CcdCommitAction::Apply(f) => CcdStep::Apply(f),
        CcdCommitAction::SendDeviceInfo(v) => CcdStep::Send(v@),
    }
}

/// How a commit or a validation starts: with nothing to send it is done at
/// once; overlapping outputs are rejected before the system is asked;
/// otherwise the kernel checks the staged records.
pub open spec fn ccd_start_step(t: CcdView) -> CcdStep {
    if !ccd_needs_commit(t) {
        CcdStep::Done
    } else if has_overlap(ccd_active_rects(t.outputs)) {
        CcdStep::Rejected
    } else {
        CcdStep::Validate(ccd_validate_flags())
    }
}

/// What follows the kernel's check answering `status`: a refusal rejects
/// the configuration; otherwise changed records are applied, and with no
/// changed records the device-info requests go out directly.
pub open spec fn ccd_validated_step(t: CcdView, status: i32) -> CcdStep {
    if status != 0 {
        CcdStep::Rejected
    } else if t.dirty {
        CcdStep::Apply(ccd_apply_flags(t.persist))
    } else {
        CcdStep::Send(ccd_requests(t))
    }
}

/// What follows the apply answering `status`: a refusal drops everything
/// staged and ends the commit; otherwise the device-info requests go out.
pub open spec fn ccd_applied_step(t: CcdView, status: i32) -> (CcdView, CcdStep) {
    if status != 0 {
        (ccd_cleared(t), CcdStep::ApplyFailed)
    } else {
        (t, CcdStep::Send(ccd_requests(t)))
    }
}

/// One call a commit makes of the system.
pub enum CcdCall {
    /// `SetDisplayConfig` in validation mode, with these flags.
    Validate(u32),
    /// `SetDisplayConfig` applying the records, with these flags.
    Apply(u32),
    /// `DisplayConfigSetDeviceInfo` with this request.
    DeviceInfo(DeviceInfoRequest),
}

/// How a commit ended.
pub enum CcdEnd {
    /// It went through.
    Done,
    /// The configuration was rejected.
    Rejected,
    /// The kernel refused to apply it with this status.
    ApplyFailed(i32),
}

/// The device-info requests as calls.
pub open spec fn device_info_calls(r: Seq<DeviceInfoRequest>) -> Seq<CcdCall> {
    r.map_values(|q: DeviceInfoRequest| CcdCall::DeviceInfo(q))
}

/// A whole CCD commit of `t` whose kernel check answers `vs` and whose apply
/// answers `aps`: the calls made in order, how it ends, and the topology
/// before the final query. Nothing staged means no call; overlapping outputs
/// are rejected without a call; the check comes first and a refusal stops
/// there with the topology unchanged; the apply is made exactly when records
/// changed, and its refusal drops everything staged with no device-info call;
/// otherwise the scale requests and then the HDR requests are sent and
/// nothing stays staged.
pub open spec fn ccd_commit_trace(t: CcdView, vs: i32, aps: i32) -> (Seq<CcdCall>, CcdEnd, CcdView) {
    let check = CcdCall::Validate(ccd_validate_flags());
    let apply = CcdCall::Apply(ccd_apply_flags(t.persist));
    if !ccd_needs_commit(t) {
        (Seq::empty(), CcdEnd::Done, t)
    } else if has_overlap(ccd_active_rects(t.outputs)) {
        (Seq::empty(), CcdEnd::Rejected, t)
    } else if vs != 0 {
        (seq![check], CcdEnd::Rejected, t)
    } else if t.dirty && aps != 0 {
        (seq![check, apply], CcdEnd::ApplyFailed(aps), ccd_cleared(t))
    } else if t.dirty {
        (seq![check, apply] + device_info_calls(ccd_requests(t)), CcdEnd::Done, ccd_cleared(t))
    } else {
        (seq![check] + device_info_calls(ccd_requests(t)), CcdEnd::Done, ccd_cleared(t))
    }
}

/// A commit driven step by step: each step's answer is handed to the next.
pub open spec fn ccd_run(t: CcdView, vs: i32, aps: i32) -> (Seq<CcdCall>, CcdEnd, CcdView) {
    match ccd_start_step(t) {
        CcdStep::Validate(vf) => match ccd_validated_step(t, vs) {
            CcdStep::Apply(af) => {
                let next = ccd_applied_step(t, aps);
                match next.1 {
                    CcdStep::Send(r) => (
                        seq![CcdCall::Validate(vf), CcdCall::Apply(af)] + device_info_calls(r),
                        CcdEnd::Done,
                        ccd_cleared(next.0),
                    ),
                    _ => (seq![CcdCall::Validate(vf), CcdCall::Apply(af)], CcdEnd::ApplyFailed(aps), next.0),
                }
            },
            CcdStep::Send(r) => (seq![CcdCall::Validate(vf)] + device_info_calls(r), CcdEnd::Done, ccd_cleared(t)),
            _ => (seq![CcdCall::Validate(vf)], CcdEnd::Rejected, t),
        },
        CcdStep::Rejected => (Seq::empty(), CcdEnd::Rejected, t),
        _ => (Seq::empty(), CcdEnd::Done, t),
    }
}

/// Driving a commit through its steps, answering each with the system's
/// status, makes exactly the calls of [`ccd_commit_trace`], in its order,
/// and ends as it says.
pub proof fn lemma_ccd_commit_order(t: CcdView, vs: i32, aps: i32)
    ensures
        ccd_run(t, vs, aps) == ccd_commit_trace(t, vs, aps),
{
}

impl CcdTopology {
    /// A topology over freshly queried records, persisting, with nothing
    /// staged.
    pub fn from_query(data: CcdRawData, outputs: Vec<OutputState>) -> (res: Self)
        ensures
            res@ == (CcdView {
                paths: data.paths@,
                modes: data.modes@,
                outputs: outputs@,
                persist: true,
                scales: Seq::empty(),
                hdr: Seq::empty(),
                dirty: false,
            }),
    {
        CcdTopology {
            data,
            outputs,
            persist: true,
            staged_scales: Vec::new(),
            staged_hdr: Vec::new(),
            dirty: false,
        }
    }

    /// Returns every output snapshot.
    pub fn get_outputs(&self) -> (res: Vec<OutputState>)
        ensures
            res@.len() == self@.outputs.len(),
            forall|j: int| 0 <= j < res@.len() ==> #[trigger] res@[j]@ == self@.outputs[j]@,
    {
        let mut res: Vec<OutputState> = Vec::new();
        let n = self.outputs.len();
        for i in 0..n
            invariant
                n == self@.outputs.len(),
                res@.len() == i,
                forall|j: int| 0 <= j < i ==> #[trigger] res@[j]@ == self@.outputs[j]@,
        {
            res.push(self.outputs[i].clone());
        }
        res
    }

    /// Whether a commit has anything to send.
    pub fn needs_commit(&self) -> (res: bool)
        ensures
            res == ccd_needs_commit(self@),
    {
        (self.dirty || self.staged_scales.len() > 0 || self.staged_hdr.len() > 0)
            && self.data.paths.len() > 0
    }

    /// The geometric half of validation: when there is something to commit,
    /// no two outputs that take part may overlap.
    pub fn validate_geometry(&self) -> (res: DisplayResult<()>)
        ensures
            !ccd_needs_commit(self@) ==> res is Ok,
            ccd_needs_commit(self@) ==> (res is Ok <==> !has_overlap(ccd_active_rects(self@.outputs))),
            res is Err ==> res->Err_0 is ConfigurationRejected,
    {
        if !self.needs_commit() {
            return Ok(());
        }
        let mut rects: Vec<(bool, Rect)> = Vec::new();
        let n = self.outputs.len();
        for i in 0..n
            invariant
                n == self@.outputs.len(),
                rects@ == ccd_active_rects(self@.outputs).subrange(0, i as int),
        {
            let o = &self.outputs[i];
            rects.push(
                (o.enabled && o.geometry.size.width > 0 && o.geometry.size.height > 0, o.geometry),
            );
            proof {
                assert(rects@ =~= ccd_active_rects(self@.outputs).subrange(0, i + 1));
            }
        }
        proof {
            assert(rects@ =~= ccd_active_rects(self@.outputs));
        }
        check_overlap(rects.as_slice())
    }

    /// The first step of a commit, and of a validation.
    pub fn commit_start(&self) -> (res: CcdCommitAction)
        ensures
            step_of(res) == ccd_start_step(self@),
            res matches CcdCommitAction::Finish(r) ==> (r is Ok || r matches Err(DisplayError::ConfigurationRejected)),
    {
        if !self.needs_commit() {
            return CcdCommitAction::Finish(Ok(()));
        }
        match self.validate_geometry() {
            Err(e) => CcdCommitAction::Finish(Err(e)),
            Ok(()) => CcdCommitAction::Validate(self.validate_flags()),
        }
    }

    /// The end of a validation whose kernel check answered `status`: any
    /// status but zero rejects the configuration.
    pub fn validate_outcome(&self, status: i32) -> (res: DisplayResult<()>)
        ensures
            res is Ok <==> status == 0,
            res is Err ==> res->Err_0 is ConfigurationRejected,
    {
        if status == 0 {
            Ok(())
        } else {
            Err(DisplayError::ConfigurationRejected)
        }
    }

    /// The step of a commit after the kernel's check answered `status`.
    pub fn after_validate(&self, status: i32) -> (res: CcdCommitAction)
        ensures
            step_of(res) == ccd_validated_step(self@, status),
            res matches CcdCommitAction::Finish(r) ==> r matches Err(DisplayError::ConfigurationRejected),
    {
        match self.validate_outcome(status) {
            Err(e) => CcdCommitAction::Finish(Err(e)),
            Ok(()) => if self.dirty {
                CcdCommitAction::Apply(self.apply_flags())
            } else {
                CcdCommitAction::SendDeviceInfo(self.device_info_requests())
            },
        }
    }

    /// The step of a commit after the apply answered `status`; a refusal
    /// drops everything staged and ends the commit with the kernel's status.
    pub fn after_apply(&mut self, status: i32) -> (res: CcdCommitAction)
        ensures
            (final(self)@, step_of(res)) == ccd_applied_step(old(self)@, status),
            res matches CcdCommitAction::Finish(r) ==> r matches Err(DisplayError::BackendError(m))
                && m@ == apply_failure_text(status),
    {
        if status != 0 {
            CcdCommitAction::Finish(Err(self.apply_failed(status)))
        } else {
            CcdCommitAction::SendDeviceInfo(self.device_info_requests())
        }
    }

    /// The end of a commit once the device-info requests are sent: nothing
    /// stays staged, and the records and snapshots of a fresh query, when it
    /// could be made, replace the old ones.
    pub fn after_device_info(&mut self, fresh: Option<(CcdRawData, Vec<OutputState>)>) -> (res: DisplayResult<()>)
        ensures
            res is Ok,
            final(self)@ == match fresh {
                Some(q) => CcdView {
                    paths: q.0.paths@,
                    modes: q.0.modes@,
                    outputs: q.1@,
                    ..ccd_cleared(old(self)@)
                },
                None => ccd_cleared(old(self)@),
            },
    {
        self.finish_commit();
        if let Some((data, outputs)) = fresh {
            self.refresh(data, outputs);
        }
        Ok(())
    }

    /// The flags of the kernel's check of the staged configuration.
    pub fn validate_flags(&self) -> (res: u32)
        ensures
            res == ccd_validate_flags(),
    {
        SDC_VALIDATE | SDC_USE_SUPPLIED_DISPLAY_CONFIG
    }

    /// The flags the configuration is applied with: saved to the database
    /// when persistence is on.
    pub fn apply_flags(&self) -> (res: u32)
        ensures
            res == ccd_apply_flags(self@.persist),
    {
        if self.persist {
            SDC_APPLY | SDC_USE_SUPPLIED_DISPLAY_CONFIG | SDC_SAVE_TO_DATABASE
        } else {
            SDC_APPLY | SDC_USE_SUPPLIED_DISPLAY_CONFIG
        }
    }

    /// The kernel refused the configuration with `status`: everything staged
    /// is dropped and the failure is reported.
    pub fn apply_failed(&mut self, status: i32) -> (res: DisplayError)
        ensures
            final(self)@ == ccd_cleared(old(self)@),
            res matches DisplayError::BackendError(m) && m@ == apply_failure_text(status),
    {
        self.staged_scales = Vec::new();
        self.staged_hdr = Vec::new();
        self.dirty = false;
        proof {
            reveal_strlit("SetDisplayConfig failed: ");
        }
        let m = String::from_str("SetDisplayConfig failed: ").concat(i32_to_decimal(status).as_str());
        assert(m@ =~= apply_failure_text(status));
        DisplayError::BackendError(m)
    }

    /// The device-info requests a commit sends after the configuration: the
    /// DPI scales, then the HDR states, each for a target that has a path.
    pub fn device_info_requests(&self) -> (res: Vec<DeviceInfoRequest>)
        ensures
            res@ == scale_requests(self@.paths, self@.scales) + hdr_requests(self@.paths, self@.hdr),
    {
        let mut res: Vec<DeviceInfoRequest> = Vec::new();
        let ns = self.staged_scales.len();
        for i in 0..ns
            invariant
                ns == self@.scales.len(),
                res@ == scale_requests(self@.paths, self@.scales.subrange(0, i as int)),
        {
            let (target, percent) = self.staged_scales[i];
            proof {
                assert(self@.scales.subrange(0, i + 1).drop_last() =~= self@.scales.subrange(0, i as int));
            }
            match self.find_path(target) {
                Some(p) => {
                    let payload = make_scale_payload(&self.data.paths[p], to_payload_percent(percent));
                    res.push(DeviceInfoRequest::Scale(payload));
                },
                None => {},
            }
            proof {
                let q = self@.scales.subrange(0, i + 1);
                assert(res@ =~= scale_requests(self@.paths, q));
            }
        }
        proof {
            assert(self@.scales.subrange(0, ns as int) =~= self@.scales);
        }
        let ghost scales_part = res@;
        let nh = self.staged_hdr.len();
        for i in 0..nh
            invariant
                nh == self@.hdr.len(),
                scales_part == scale_requests(self@.paths, self@.scales),
                res@ == scales_part + hdr_requests(self@.paths, self@.hdr.subrange(0, i as int)),
        {
            let (target, setting) = self.staged_hdr[i];
            proof {
                assert(self@.hdr.subrange(0, i + 1).drop_last() =~= self@.hdr.subrange(0, i as int));
            }
            match self.find_path(target) {
                Some(p) => {
                    let payload = make_hdr_payload(&self.data.paths[p], setting.0 == HdrState::Enabled);
                    res.push(DeviceInfoRequest::Hdr(payload));
                },
                None => {},
            }
            proof {
                let q = self@.hdr.subrange(0, i + 1);
                assert(res@ =~= scales_part + hdr_requests(self@.paths, q));
            }
        }
        proof {
            assert(self@.hdr.subrange(0, nh as int) =~= self@.hdr);
        }
        res
    }

    /// The staged changes have been sent: nothing is staged any more.
    pub fn finish_commit(&mut self)
        ensures
            final(self)@ == ccd_cleared(old(self)@),
    {
        self.staged_scales = Vec::new();
        self.staged_hdr = Vec::new();
        self.dirty = false;
    }

    /// Replaces the records and snapshots with those of a fresh query.
    pub fn refresh(&mut self, data: CcdRawData, outputs: Vec<OutputState>)
        ensures
            final(self)@ == (CcdView {
                paths: data.paths@,
                modes: data.modes@,
                outputs: outputs@,
                ..old(self)@
            }),
    {
        self.data = data;
        self.outputs = outputs;
    }
}

/// Once a commit has gone through, or the kernel refused the
/// configuration, nothing is pending: a second commit has nothing to send.
pub proof fn lemma_ccd_commit_idempotent(t: CcdView)
    ensures
        !ccd_needs_commit(ccd_cleared(t)),
        ccd_cleared(ccd_cleared(t)) == ccd_cleared(t),
{
}

/// Every staged scale of a target that has a path goes out as one DPI
/// request for that target, with the staged percentage; no other requests
/// are made.
pub proof fn lemma_scale_requests_cover(paths: Seq<CcdPath>, scales: Seq<(u32, u32)>)
    ensures
        scale_requests(paths, scales).len() <= scales.len(),
        forall|i: int|
            0 <= i < scales.len() && path_index(paths, (#[trigger] scales[i]).0) is Some ==> scale_requests(
                paths,
                scales,
            ).contains(
                DeviceInfoRequest::Scale(
                    scale_payload(paths[path_index(paths, scales[i].0)->Some_0], payload_percent(scales[i].1)),
                ),
            ),
    decreases scales.len(),
{
    if scales.len() > 0 {
        let init = scales.drop_last();
        lemma_scale_requests_cover(paths, init);
        let rest = scale_requests(paths, init);
        let e = scales.last();
        let tail: Seq<DeviceInfoRequest> = match path_index(paths, e.0) {
            Some(p) => seq![DeviceInfoRequest::Scale(scale_payload(paths[p], payload_percent(e.1)))],
            None => Seq::empty(),
        };
        assert(scale_requests(paths, scales) == rest + tail);
        assert forall|i: int|
            0 <= i < scales.len() && path_index(paths, (#[trigger] scales[i]).0) is Some implies (rest + tail).contains(
            DeviceInfoRequest::Scale(
                scale_payload(paths[path_index(paths, scales[i].0)->Some_0], payload_percent(scales[i].1)),
            ),
        ) by {
            let q = DeviceInfoRequest::Scale(
                scale_payload(paths[path_index(paths, scales[i].0)->Some_0], payload_percent(scales[i].1)),
            );
            if i < scales.len() - 1 {
                assert(init[i] == scales[i]);
                let k = choose|k: int| 0 <= k < rest.len() && rest[k] == q;
                assert((rest + tail)[k] == q);
            } else {
                assert((rest + tail)[rest.len() as int] == q);
            }
        }
    }
}

} // verus!
