//! The device half of a paired scenario: one on-target test, run as a child
//! invocation in the firmware crate.
//!
//! Every scenario ends by asking for the device's verdict; a scenario that
//! never started its device test fails rather than silently passing on
//! host-side evidence alone.

use crate::text::{join, mentions, texts, wrap};
use vstd::prelude::*;
use vstd::string::*;

verus! {

/// How to invoke the device-side test crate. One per suite.
#[derive(Debug)]
pub struct DeviceSuite {
    /// Directory of the firmware crate whose tests run on-target.
    pub crate_dir: String,
    /// Test target within that crate.
    pub test_target: String,
    /// Extra arguments. Empty by default.
    pub cargo_args: Vec<String>,
    /// Program to invoke; "cargo" unless overridden.
    pub program: String,
}

/// How far a device test is.
#[derive(Debug)]
pub enum State {
    Idle,
    Running,
    Done(Result<(), String>),
}

/// One on-target test.
#[derive(Debug)]
pub struct DeviceTest {
    pub suite: DeviceSuite,
    pub test_path: String,
    pub state: State,
}

/// How the child that ran a device test ended.
#[derive(Debug)]
pub enum Exit {
    Succeeded,
    /// It reported failure, with this status.
    Failed(String),
    /// It could not be started.
    SpawnFailed(String),
    /// The task that waited for it died.
    TaskFailed(String),
}

impl Clone for DeviceSuite {
    fn clone(&self) -> (r: Self)
        ensures
            r.crate_dir == self.crate_dir,
            r.test_target == self.test_target,
            r.cargo_args@ == self.cargo_args@,
            r.program == self.program,
    {
        DeviceSuite {
            crate_dir: self.crate_dir.clone(),
            test_target: self.test_target.clone(),
            cargo_args: copied(&self.cargo_args),
            program: self.program.clone(),
        }
    }
}

/// A copy of a list of strings.
pub fn copied(v: &Vec<String>) -> (r: Vec<String>)
    ensures
        r@ == v@,
{
    let mut r: Vec<String> = Vec::new();
    let mut i: usize = 0;
    while i < v.len()
        invariant
            i <= v@.len(),
            r@ == v@.take(i as int),
        decreases v.len() - i,
    {
        r.push(v[i].clone());
        i += 1;
    }
    assert(v@.take(i as int) =~= v@);
    r
}

impl DeviceSuite {
    /// A suite run by `cargo`, without extra arguments.
    pub fn new(crate_dir: String, test_target: String) -> (r: Self)
        ensures
            r.crate_dir == crate_dir,
            r.test_target == test_target,
            r.cargo_args@.len() == 0,
            r.program@ == "cargo"@,
    {
        DeviceSuite {
            crate_dir,
            test_target,
            cargo_args: Vec::new(),
            program: "cargo".to_owned(),
        }
    }

    /// A handle for one on-target test, not yet started: the scenario decides
    /// when to flash.
    pub fn test(&self, test_path: String) -> (r: DeviceTest)
        ensures
            r.suite.crate_dir == self.crate_dir,
            r.suite.test_target == self.test_target,
            r.suite.cargo_args@ == self.cargo_args@,
            r.suite.program == self.program,
            r.test_path == test_path,
            r.state is Idle,
    {
        DeviceTest { suite: self.clone(), test_path, state: State::Idle }
    }
}

impl DeviceTest {
    /// The arguments of the child that runs this test, and only this one.
    pub open spec fn args(self) -> Seq<Seq<char>> {
        seq!["test"@] + texts(self.suite.cargo_args@) + seq![
            "--test"@,
            self.suite.test_target@,
            "--"@,
            "--exact"@,
            self.test_path@,
        ]
    }

    /// What the end of the child means.
    pub open spec fn meaning(self, exit: Exit) -> Result<(), Seq<char>> {
        match exit {
            Exit::Succeeded => Ok(()),
            Exit::Failed(status) => Err(
                "device-side test '"@ + self.test_path@ + "' reported failure ("@ + status@
                    + ")"@,
            ),
            Exit::SpawnFailed(e) => Err(
                "spawning "@ + self.suite.program@ + " in "@ + self.suite.crate_dir@ + ": "@ + e@,
            ),
            Exit::TaskFailed(e) => Err("device test task failed: "@ + e@),
        }
    }

    /// The verdict that stands: `None` while the child runs.
    pub open spec fn standing(self) -> Option<Result<(), Seq<char>>> {
        match self.state {
            State::Idle => Some(
                Err("device test '"@ + self.test_path@ + "' was never started"@),
            ),
            State::Running => None,
            State::Done(Ok(_)) => Some(Ok(())),
            State::Done(Err(m)) => Some(Err(m@)),
        }
    }

    /// Exact on-target test this handle runs.
    pub fn test_path(&self) -> (r: &str)
        ensures
            r@ == self.test_path@,
    {
        self.test_path.as_str()
    }

    /// Starts the on-target test: the arguments of the child to run, or
    /// nothing when the crate directory is missing, which is a failure at
    /// once. Not to be called twice.
    pub fn start(&mut self, dir_exists: bool) -> (r: Option<Vec<String>>)
        requires
            old(self).state is Idle,
        ensures
            final(self).suite == old(self).suite,
            final(self).test_path == old(self).test_path,
            dir_exists ==> final(self).state is Running && (r matches Some(v) && texts(v@) == old(
                self,
            ).args()),
            !dir_exists ==> r is None && (final(self).state matches State::Done(Err(m)) && m@
                == "device crate dir "@ + old(self).suite.crate_dir@ + " does not exist"@),
    {
        if !dir_exists {
            self.state = State::Done(
                Err(
                    wrap(
                        "device crate dir ",
                        self.suite.crate_dir.as_str(),
                        " does not exist",
                    ),
                ),
            );
            return None;
        }
        let mut v: Vec<String> = Vec::new();
        v.push("test".to_owned());
        let mut extra = copied(&self.suite.cargo_args);
        v.append(&mut extra);
        v.push("--test".to_owned());
        v.push(self.suite.test_target.clone());
        v.push("--".to_owned());
        v.push("--exact".to_owned());
        v.push(self.test_path.clone());
        assert(texts(v@) =~= self.args());
        self.state = State::Running;
        Some(v)
    }

    /// Takes note of how the child ended.
    pub fn exited(&mut self, exit: Exit)
        requires
            old(self).state is Running,
        ensures
            final(self).suite == old(self).suite,
            final(self).test_path == old(self).test_path,
            final(self).standing() == Some(old(self).meaning(exit)),
            final(self).state is Done,
    {
        let result = match exit {
            Exit::Succeeded => Ok(()),
            Exit::Failed(status) => {
                let mut out = wrap(
                    "device-side test '",
                    self.test_path.as_str(),
                    "' reported failure (",
                );
                out.append(status.as_str());
                out.append(")");
                Err(out)
            },
            Exit::SpawnFailed(e) => {
                let mut out = wrap("spawning ", self.suite.program.as_str(), " in ");
                out.append(self.suite.crate_dir.as_str());
                out.append(": ");
                out.append(e.as_str());
                Err(out)
            },
            Exit::TaskFailed(e) => Err(join("device test task failed: ", e.as_str())),
        };
        self.state = State::Done(result);
    }

    /// If the device side has already failed, its error. Context for
    /// host-side failures: a scenario that times out because the device never
    /// ran should say so.
    pub fn failure_context(&self) -> (r: Option<String>)
        ensures
            match self.state {
                State::Done(Err(m)) => r == Some(m),
                _ => r is None,
            },
    {
        match &self.state {
            State::Done(Err(m)) => Some(m.clone()),
            _ => None,
        }
    }

    /// The device-side result, once the child has ended. Asking twice gives
    /// the same answer. Never started is a failure, not a pass.
    pub fn verdict(&self) -> (r: Result<(), String>)
        requires
            !(self.state is Running),
        ensures
            match self.standing() {
                Some(Ok(_)) => r is Ok,
                Some(Err(m)) => r matches Err(text) && text@ == m,
                None => true,
            },
    {
        match &self.state {
            State::Done(Ok(_)) => Ok(()),
            State::Done(Err(m)) => Err(m.clone()),
            _ => Err(wrap("device test '", self.test_path.as_str(), "' was never started")),
        }
    }
}

/// The device test of a scenario that does not name one.
pub fn derived_test_path(scenario: &str) -> (r: String)
    ensures
        r@ == "tests::"@ + scenario@,
{
    join("tests::", scenario)
}

/// How a scenario ends, given how its host side ended and its device test:
/// `None` is a pass.
pub open spec fn scenario_failure(
    host: Result<(), Option<String>>,
    device: DeviceTest,
) -> Option<Seq<char>> {
    match host {
        Err(e) => {
            let msg = match e {
                Some(m) => m@,
                None => "test failed"@,
            };
            match device.state {
                State::Done(Err(m)) => Some(msg + "\ndevice side: "@ + m@),
                _ => Some(msg),
            }
        },
        Ok(_) => match device.standing() {
            Some(Ok(_)) => None,
            Some(Err(m)) => Some(m),
            None => None,
        },
    }
}

/// Ends a scenario: a host-side failure is reported with what the device side
/// has to say; otherwise the device's verdict decides. When the host side
/// passed, the device test has to have ended.
pub fn scenario_verdict(host: Result<(), Option<String>>, device: &DeviceTest) -> (r: Result<
    (),
    String,
>)
    requires
        host is Ok ==> !(device.state is Running),
    ensures
        match scenario_failure(host, *device) {
            Some(m) => r matches Err(text) && text@ == m,
            None => r is Ok,
        },
{
    match host {
        Err(e) => {
            let msg = match e {
                Some(m) => m,
                None => "test failed".to_owned(),
            };
            match device.failure_context() {
                Some(m) => {
                    let mut out = join(msg.as_str(), "\ndevice side: ");
                    out.append(m.as_str());
                    Err(out)
                },
                None => Err(msg),
            }
        },
        Ok(_) => device.verdict(),
    }
}

/// No scenario passes without its device half agreeing: a pass needs a device
/// test that was started, ended, and succeeded.
pub proof fn no_pass_without_the_device(host: Result<(), Option<String>>, device: DeviceTest)
    requires
        host is Ok ==> !(device.state is Running),
    ensures
        (scenario_failure(host, device) is None) == (host is Ok && device.state matches
            State::Done(Ok(_))),
{
}

/// What the child reported is what the verdict says: a pass exactly when it
/// succeeded.
pub proof fn verdict_tracks_the_child(before: DeviceTest, exit: Exit, after: DeviceTest)
    requires
        after.standing() == Some(before.meaning(exit)),
    ensures
        after.standing()->0 is Ok == (exit is Succeeded),
{
}

/// The child runs the one test that the handle is for, whatever the extra
/// arguments are: its arguments begin with `test`, go on with exactly the
/// suite's extra arguments, in order, and end with the test target and the
/// exact path of the test.
pub proof fn the_child_runs_that_one_test(
    test: &mut DeviceTest,
    dir_exists: bool,
    r: Option<Vec<String>>,
)
    requires
        call_ensures(DeviceTest::start, (test, dir_exists), r),
    ensures
        r is Some == dir_exists,
        r matches Some(v) ==> {
            let n = old(test).suite.cargo_args@.len() as int;
            &&& v@.len() == n + 6
            &&& v@[0]@ == "test"@
            &&& forall|i: int| 0 <= i < n ==> (#[trigger] v@[1 + i])@ == old(
                test,
            ).suite.cargo_args@[i]@
            &&& v@[n + 1]@ == "--test"@
            &&& v@[n + 2]@ == old(test).suite.test_target@
            &&& v@[n + 3]@ == "--"@
            &&& v@[n + 4]@ == "--exact"@
            &&& v@[n + 5]@ == old(test).test_path@
        },
        final(test).test_path@ == old(test).test_path@,
{
    if let Some(v) = r {
        let n = old(test).suite.cargo_args@.len() as int;
        let t = texts(v@);
        assert(t == old(test).args());
        assert(t.len() == v@.len());
        assert(t[0] == v@[0]@);
        assert(t[n + 1] == v@[n + 1]@);
        assert(t[n + 2] == v@[n + 2]@);
        assert(t[n + 3] == v@[n + 3]@);
        assert(t[n + 4] == v@[n + 4]@);
        assert(t[n + 5] == v@[n + 5]@);
        assert forall|i: int| 0 <= i < n implies (#[trigger] v@[1 + i])@ == old(
            test,
        ).suite.cargo_args@[i]@ by {
            assert(t[1 + i] == v@[1 + i]@);
        }
    }
}

/// A suite runs `cargo`, without extra arguments, in the crate and on the
/// test target that it is made for; its tests run what the suite says, and
/// have not started.
pub proof fn a_test_is_of_its_suite(
    crate_dir: String,
    test_target: String,
    suite: DeviceSuite,
    path: String,
    test: DeviceTest,
)
    requires
        call_ensures(DeviceSuite::new, (crate_dir, test_target), suite),
        call_ensures(DeviceSuite::test, (&suite, path), test),
    ensures
        suite.program@ == "cargo"@,
        suite.cargo_args@.len() == 0,
        test.suite.crate_dir@ == crate_dir@,
        test.suite.test_target@ == test_target@,
        test.suite.program@ == suite.program@,
        test.suite.cargo_args@ == suite.cargo_args@,
        test.test_path@ == path@,
        test.state is Idle,
{
}

/// A handle of any suite carries all that the suite says.
pub proof fn a_handle_copies_its_suite(suite: DeviceSuite, path: String, test: DeviceTest)
    requires
        call_ensures(DeviceSuite::test, (&suite, path), test),
    ensures
        test.suite.crate_dir@ == suite.crate_dir@,
        test.suite.test_target@ == suite.test_target@,
        test.suite.program@ == suite.program@,
        test.suite.cargo_args@ == suite.cargo_args@,
        test.test_path@ == path@,
        test.state is Idle,
{
}

/// A scenario on an existing crate passes exactly when its host side and the
/// child that ran the device test both did. A failed child is reported by the
/// test's path and its status; what the host side reported comes first.
pub proof fn a_scenario_passes_when_both_sides_do(
    started: &mut DeviceTest,
    args: Option<Vec<String>>,
    ended: &mut DeviceTest,
    exit: Exit,
    device: DeviceTest,
    host: Result<(), Option<String>>,
    r: Result<(), String>,
)
    requires
        call_ensures(DeviceTest::start, (started, true), args),
        *old(ended) == *final(started),
        call_ensures(DeviceTest::exited, (ended, exit), ()),
        device == *final(ended),
        call_ensures(scenario_verdict, (host, &device), r),
    ensures
        r is Ok == (host is Ok && exit is Succeeded),
        host is Ok ==> match exit {
            Exit::Succeeded => true,
            Exit::Failed(status) => r->Err_0@ == "device-side test '"@ + old(started).test_path@
                + "' reported failure ("@ + status@ + ")"@,
            Exit::SpawnFailed(e) => r->Err_0@ == "spawning "@ + old(started).suite.program@ + " in "@
                + old(started).suite.crate_dir@ + ": "@ + e@,
            Exit::TaskFailed(e) => mentions(r->Err_0@, e@),
        },
        host matches Err(Some(m)) ==> r->Err_0@.take(m@.len() as int) == m@,
        host is Err ==> (exit matches Exit::Failed(status) ==> mentions(r->Err_0@, status@)),
        host matches Err(Some(m)) ==> (exit is Succeeded ==> r->Err_0@ == m@),
{
    broadcast use crate::text::group_mentions;

    assert(device.standing() is Some);
    if let Err(Some(m)) = host {
        assert(r->Err_0@.take(m@.len() as int) =~= m@);
    }
}

/// A crate directory that is not there fails the scenario, by its name.
pub proof fn a_missing_crate_fails(
    test: &mut DeviceTest,
    args: Option<Vec<String>>,
    device: DeviceTest,
    r: Result<(), String>,
)
    requires
        call_ensures(DeviceTest::start, (test, false), args),
        device == *final(test),
        call_ensures(scenario_verdict, (Ok(()), &device), r),
    ensures
        args is None,
        r matches Err(m) && mentions(m@, old(test).suite.crate_dir@),
{
    broadcast use crate::text::group_mentions;

}

/// A device test that was never started fails the scenario, by its path,
/// whatever the host side saw.
pub proof fn an_idle_test_fails(
    device: DeviceTest,
    host: Result<(), Option<String>>,
    r: Result<(), String>,
    verdict: Result<(), String>,
)
    requires
        device.state is Idle,
        call_ensures(scenario_verdict, (host, &device), r),
        call_ensures(DeviceTest::verdict, (&device,), verdict),
    ensures
        r is Err,
        host is Ok ==> mentions(r->Err_0@, device.test_path@),
        verdict matches Err(m) && mentions(m@, device.test_path@),
{
    broadcast use crate::text::group_mentions;

}

/// The verdict is what the device test ended with, word for word, and only a
/// failure gives context to one of the host side.
pub proof fn the_verdict_is_what_the_test_ended_with(
    device: DeviceTest,
    verdict: Result<(), String>,
    context: Option<String>,
)
    requires
        device.state is Done,
        call_ensures(DeviceTest::verdict, (&device,), verdict),
        call_ensures(DeviceTest::failure_context, (&device,), context),
    ensures
        verdict is Ok == device.state->Done_0 is Ok,
        verdict matches Err(m) ==> m@ == device.state->Done_0->Err_0@,
        context is Some == verdict is Err,
        context matches Some(m) ==> m@ == verdict->Err_0@,
{
}

/// A handle tells which test it is for.
pub proof fn a_handle_tells_its_test(device: DeviceTest, r: &str)
    requires
        call_ensures(DeviceTest::test_path, (&device,), r),
    ensures
        r@ == device.test_path@,
{
}

/// A scenario that names no device test has the one of its own name, in the
/// module `tests`.
pub proof fn a_scenario_has_the_test_of_its_name(scenario: &str, r: String)
    requires
        call_ensures(derived_test_path, (scenario,), r),
    ensures
        r@.len() == 7 + scenario@.len(),
        r@.take(7) == "tests::"@,
        r@.skip(7) == scenario@,
{
    reveal_strlit("tests::");
    assert(r@.take(7) =~= "tests::"@);
    assert(r@.skip(7) =~= scenario@);
}

/// A copy of a list holds the same texts, in the same places.
pub proof fn a_copied_list_is_the_same(v: Vec<String>, r: Vec<String>)
    requires
        call_ensures(copied, (&v,), r),
    ensures
        r@.len() == v@.len(),
        forall|i: int| 0 <= i < v@.len() ==> (#[trigger] r@[i])@ == v@[i]@,
{
}

/// A failure of the host side is reported as it is, followed by what the
/// device side has to say, word for word, exactly where that has failed too.
pub proof fn a_host_failure_carries_the_devices(
    device: DeviceTest,
    host: Result<(), Option<String>>,
    r: Result<(), String>,
    context: Option<String>,
)
    requires
        host is Err,
        call_ensures(scenario_verdict, (host, &device), r),
        call_ensures(DeviceTest::failure_context, (&device,), context),
    ensures
        ({
            let message = match host->Err_0 {
                Some(m) => m@,
                None => "test failed"@,
            };
            &&& r is Err
            &&& context is None ==> r->Err_0@ == message
            &&& context matches Some(m) ==> r->Err_0@ == message + "\ndevice side: "@ + m@
        }),
        context is Some == (device.state is Done && device.state->Done_0 is Err),
        context matches Some(m) ==> m@ == device.state->Done_0->Err_0@,
{
}

} // verus!
