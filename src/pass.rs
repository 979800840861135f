use vstd::prelude::*;
use vstd::string::StringExecFns;
use crate::worker::WorkerOutcome;

verus! {

/// The bookkeeping of one pass over a device list: which workers may be
/// started, under a bound on how many run at once, and how they ended.
pub struct ScanPass {
    n_devices: usize,
    max_in_flight: usize,
    launched: usize,
    in_flight: usize,
    completed: usize,
    failures: Vec<(usize, String)>,
}

/// The abstract state of a pass.
pub struct PassState {
    pub n_devices: nat,
    /// At most this many workers run at once; zero means no bound.
    pub max_in_flight: nat,
    /// Workers are started in device order; this many have been.
    pub launched: nat,
    pub in_flight: nat,
    pub completed: nat,
    /// The device index and diagnostic of every worker that did not complete.
    pub failures: Seq<(usize, Seq<char>)>,
}

/// Whether another worker may start now.
pub open spec fn may_launch(p: PassState) -> bool {
    p.launched < p.n_devices && (p.max_in_flight == 0 || p.in_flight < p.max_in_flight)
}

pub open spec fn pass_wf(p: PassState) -> bool {
    &&& p.launched <= p.n_devices
    &&& p.in_flight <= p.launched
    &&& (p.max_in_flight > 0 ==> p.in_flight <= p.max_in_flight)
    &&& p.completed + p.failures.len() + p.in_flight == p.launched
}

/// The diagnostic a failed worker reports.
pub open spec fn outcome_message(o: WorkerOutcome) -> Seq<char> {
    match o {
        WorkerOutcome::Completed => Seq::empty(),
        WorkerOutcome::ConnectFailed(m) => m@,
        WorkerOutcome::Failed(m) => m@,
        WorkerOutcome::Cancelled => "cancelled"@,
    }
}

impl View for ScanPass {
    type V = PassState;

    closed spec fn view(&self) -> PassState {
        PassState {
            n_devices: self.n_devices as nat,
            max_in_flight: self.max_in_flight as nat,
            launched: self.launched as nat,
            in_flight: self.in_flight as nat,
            completed: self.completed as nat,
            failures: self.failures@.map_values(|f: (usize, String)| (f.0, f.1@)),
        }
    }
}

impl ScanPass {
    /// A pass over `n_devices` devices running at most `max_in_flight`
    /// workers at once (zero: no bound).
    pub fn new(n_devices: usize, max_in_flight: usize) -> (r: ScanPass)
        ensures
            r@ == (PassState {
                n_devices: n_devices as nat,
                max_in_flight: max_in_flight as nat,
                launched: 0,
                in_flight: 0,
                completed: 0,
                failures: Seq::empty(),
            }),
            pass_wf(r@),
    {
        let r = ScanPass {
            n_devices,
            max_in_flight,
            launched: 0,
            in_flight: 0,
            completed: 0,
            failures: Vec::new(),
        };
        assert(r@.failures =~= Seq::<(usize, Seq<char>)>::empty());
        r
    }

    /// The index of the next device whose worker may start now, if any;
    /// that worker then counts as running.
    pub fn launch_next(&mut self) -> (r: Option<usize>)
        requires
            pass_wf(old(self)@),
        ensures
            pass_wf(final(self)@),
            r is Some <==> may_launch(old(self)@),
            r is Some ==> r->Some_0 == old(self)@.launched && final(self)@ == (PassState {
                launched: old(self)@.launched + 1,
                in_flight: old(self)@.in_flight + 1,
                ..old(self)@
            }),
            r is None ==> final(self)@ == old(self)@,
    {
        if self.launched < self.n_devices && (self.max_in_flight == 0 || self.in_flight
            < self.max_in_flight) {
            let i: usize = self.launched;
            self.launched = self.launched + 1;
            self.in_flight = self.in_flight + 1;
            Some(i)
        } else {
            None
        }
    }

    /// Records how the worker of device `device` ended. A failure is kept
    /// for the report and has no effect on the other workers.
    pub fn finished(&mut self, device: usize, outcome: WorkerOutcome)
        requires
            pass_wf(old(self)@),
            old(self)@.in_flight > 0,
        ensures
            pass_wf(final(self)@),
            final(self)@.in_flight == old(self)@.in_flight - 1,
            final(self)@.launched == old(self)@.launched,
            final(self)@.n_devices == old(self)@.n_devices,
            final(self)@.max_in_flight == old(self)@.max_in_flight,
            outcome is Completed ==> final(self)@.completed == old(self)@.completed + 1
                && final(self)@.failures == old(self)@.failures,
            !(outcome is Completed) ==> final(self)@.completed == old(self)@.completed
                && final(self)@.failures == old(self)@.failures.push(
                (device, outcome_message(outcome)),
            ),
    {
        self.in_flight = self.in_flight - 1;
        let ghost before = self.failures@;
        match outcome {
            WorkerOutcome::Completed => {
                self.completed = self.completed + 1;
            },
            WorkerOutcome::ConnectFailed(m) => {
                self.failures.push((device, m));
            },
            WorkerOutcome::Failed(m) => {
                self.failures.push((device, m));
            },
            WorkerOutcome::Cancelled => {
                self.failures.push((device, String::from_str("cancelled")));
            },
        }
        assert(self.failures@.map_values(|f: (usize, String)| (f.0, f.1@)) =~= if outcome is Completed {
            before.map_values(|f: (usize, String)| (f.0, f.1@))
        } else {
            before.map_values(|f: (usize, String)| (f.0, f.1@)).push(
                (device, outcome_message(outcome)),
            )
        });
    }

    /// Whether every worker has been started and has ended.
    pub fn is_over(&self) -> (r: bool)
        requires
            pass_wf(self@),
        ensures
            r == (self@.launched == self@.n_devices && self@.in_flight == 0),
    {
        self.launched == self.n_devices && self.in_flight == 0
    }

    /// How many workers completed.
    pub fn completed(&self) -> (r: usize)
        ensures
            r == self@.completed,
    {
        self.completed
    }

    /// The workers that did not complete, by device index, with their
    /// diagnostics.
    pub fn failures(&self) -> (r: &Vec<(usize, String)>)
        ensures
            r@.map_values(|f: (usize, String)| (f.0, f.1@)) == self@.failures,
    {
        &self.failures
    }
}

/// Once a pass is over, every device's worker has ended exactly once:
/// as many completed or failed as there are devices.
pub proof fn lemma_pass_accounts_every_device(p: PassState)
    requires
        pass_wf(p),
        p.launched == p.n_devices,
        p.in_flight == 0,
    ensures
        p.completed + p.failures.len() == p.n_devices,
{
}

/// The bound on running workers is never exceeded.
pub proof fn lemma_bound_respected(p: PassState)
    requires
        pass_wf(p),
        p.max_in_flight > 0,
    ensures
        p.in_flight <= p.max_in_flight,
{
}

} // verus!
