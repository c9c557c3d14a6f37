//! The controller's state and its transitions.
//!
//! Talking to the hardware (reading fans and sensors, sending control
//! signals, pausing between rounds) happens outside; each step below takes
//! what came back and decides what the controller does next. Time is
//! handed in as a count of milliseconds on a monotonic clock.
use vstd::prelude::*;
use crate::mode::{Fan, FanControlMode};
use crate::selection::{
    ALL_FANS_SELECTION_ID,
    first_index_with_id,
    normalized_selection,
    index_of_fan,
    normalize_selection,
    law_first_index_found,
};
use crate::active_mode::{
    FanRpmFacts,
    active_mode_spec,
    shows_progress_spec,
    active_control_mode,
    shows_control_attempt_progress,
};
use crate::signals::{SignalTally, ManualRun};
use crate::text::{joined, join_lines};

verus! {

/// How long an error stays on screen, in milliseconds.
pub const ERROR_DISPLAY_MS: u64 = 5000;

/// A clock reading at which an error can still be given its display time.
pub open spec fn valid_now(now: u64) -> bool {
    now <= u64::MAX - ERROR_DISPLAY_MS
}

/// What the controller knows: the fans and temperature sensors last read,
/// the selection, the progress of control attempts, the error on screen and
/// when it expires, and the manual override it holds.
pub struct ModelState<R, T> {
    pub provider_name: String,
    pub fans: Seq<Fan<R>>,
    pub temperature_sensors: Seq<T>,
    pub selected_fan_id: i32,
    pub is_sending_control_attempts: bool,
    pub control_attempt_target_mode: Option<FanControlMode>,
    pub error_text: Option<String>,
    pub error_expiry: Option<u64>,
    pub processor_name: String,
    pub holding_manual_override: bool,
    pub control_action_token: u64,
    pub initial_notice: Option<String>,
    pub initialized: bool,
}

impl<R, T> ModelState<R, T> {
    /// All fans are controlled together.
    pub open spec fn controls_all_fans(self) -> bool {
        self.selected_fan_id == ALL_FANS_SELECTION_ID
    }

    /// The position of the single selected fan, if one is selected and there.
    pub open spec fn selected_index(self) -> Option<int> {
        if self.controls_all_fans() {
            None
        } else {
            first_index_with_id(self.fans, self.selected_fan_id)
        }
    }

    /// The positions of the fans a control action acts on: all fans, or the
    /// selected fan, or none when the selected fan is not there.
    pub open spec fn control_targets(self) -> Seq<int> {
        if self.controls_all_fans() {
            Seq::new(self.fans.len(), |i: int| i)
        } else {
            match self.selected_index() {
                Some(i) => seq![i],
                None => Seq::empty(),
            }
        }
    }

    /// The mode codes of the controlled fans.
    pub open spec fn target_codes(self) -> Seq<u8> {
        self.control_targets().map_values(|i: int| self.fans[i].mode)
    }

    /// The ids of the controlled fans.
    pub open spec fn target_ids(self) -> Seq<i32> {
        self.control_targets().map_values(|i: int| self.fans[i].id)
    }

    /// The state after an error whose display time is over is taken away.
    pub open spec fn expired_error_cleared(self, now: u64) -> Self {
        match self.error_expiry {
            Some(expiry) => if now >= expiry {
                ModelState { error_text: None, error_expiry: None, ..self }
            } else {
                self
            },
            None => self,
        }
    }

    /// The state after `message` is put on screen at `now`: unchanged while
    /// the same message is still on screen, else shown for the display time.
    pub open spec fn error_presented(self, message: String, now: u64) -> Self {
        if self.shows_error(message, now) {
            self
        } else {
            ModelState {
                error_text: Some(message),
                error_expiry: Some((now + ERROR_DISPLAY_MS) as u64),
                ..self
            }
        }
    }

    /// `message` is on screen and its display time is not over at `now`.
    pub open spec fn shows_error(self, message: String, now: u64) -> bool {
        &&& self.error_text matches Some(text) && text@ == message@
        &&& self.error_expiry matches Some(expiry) && now < expiry
    }

    /// The state after the error is dismissed.
    pub open spec fn error_dismissed(self) -> Self {
        ModelState { error_text: None, error_expiry: None, ..self }
    }

    /// The state after control attempts stop being shown as under way.
    pub open spec fn progress_ended(self) -> Self {
        ModelState {
            is_sending_control_attempts: false,
            control_attempt_target_mode: None,
            ..self
        }
    }

    /// The state after a new control action starts: the action token moves
    /// on (it stays at its largest value once there) and attempts of an
    /// earlier action stop being shown.
    pub open spec fn action_started(self) -> Self {
        ModelState {
            control_action_token: if self.control_action_token == u64::MAX {
                u64::MAX
            } else {
                (self.control_action_token + 1) as u64
            },
            ..self.progress_ended()
        }
    }

    /// The state after `result`, the answer to a request whose failure is
    /// shown as an error, arrives at `now`.
    pub open spec fn answer_noted(self, result: Result<(), String>, now: u64) -> Self {
        match result {
            Ok(_) => self,
            Err(e) => self.error_presented(e, now),
        }
    }

    /// The state after a control action whose signals were all refused ends:
    /// the last refusal, if any, is put on screen.
    pub open spec fn refusal_noted(self, last_error: Option<String>, now: u64) -> Self {
        match last_error {
            Some(e) => self.error_presented(e, now),
            None => self,
        }
    }

    /// The state after the initial notice, if any, is put on screen and
    /// forgotten.
    pub open spec fn notice_presented(self, now: u64) -> Self {
        match self.initial_notice {
            Some(notice) => ModelState { initial_notice: None, ..self }.error_presented(notice, now),
            None => self,
        }
    }

    /// The state after the fans are read: a reading replaces the fans; a
    /// failure is put on screen and drops the temperature sensors.
    pub open spec fn fans_applied(self, reading: Result<Seq<Fan<R>>, String>, now: u64) -> Self {
        match reading {
            Ok(fans) => ModelState { fans, ..self },
            Err(e) => ModelState { temperature_sensors: Seq::empty(), ..self.error_presented(e, now) },
        }
    }

    /// The state after the temperature sensors are read (a failure is put
    /// on screen and drops them), with the selection then kept valid for the
    /// fans known.
    pub open spec fn sensors_applied(self, reading: Result<Seq<T>, String>, now: u64) -> Self {
        let read = match reading {
            Ok(sensors) => ModelState { temperature_sensors: sensors, ..self },
            Err(e) => ModelState { temperature_sensors: Seq::empty(), ..self.error_presented(e, now) },
        };
        ModelState { selected_fan_id: normalized_selection(read.fans, read.selected_fan_id), ..read }
    }

    /// A whole refresh: an expired error is taken away at `t0`, the fans are
    /// read at `t1`, and, when that succeeded, the sensors at `t2`.
    pub open spec fn refreshed(
        self,
        fans_reading: Result<Seq<Fan<R>>, String>,
        sensors_reading: Result<Seq<T>, String>,
        t0: u64,
        t1: u64,
        t2: u64,
    ) -> Self {
        let after_fans = self.expired_error_cleared(t0).fans_applied(fans_reading, t1);
        if fans_reading is Ok {
            after_fans.sensors_applied(sensors_reading, t2)
        } else {
            after_fans
        }
    }

    /// The state after the check before a round of the action with the
    /// token `token`: unchanged while that action is the latest one, else
    /// its attempts stop being shown.
    pub open spec fn round_checked(self, token: u64) -> Self {
        if self.control_action_token == token {
            self
        } else {
            self.progress_ended()
        }
    }

    /// The state after handing fans back ends with `successes` signals
    /// through and the last refusal `last_error`.
    pub open spec fn auto_finished(self, successes: nat, last_error: Option<String>, now: u64) -> Self {
        if successes == 0 {
            self.refusal_noted(last_error, now)
        } else {
            ModelState { holding_manual_override: false, ..self }
        }
    }

    /// The state after the manual action with the token `token` ends with
    /// `successes` signals through and the last refusal `last_error`.
    pub open spec fn manual_finished(
        self,
        token: u64,
        successes: nat,
        last_error: Option<String>,
        now: u64,
    ) -> Self {
        let ended = self.progress_ended();
        if self.control_action_token != token {
            ended
        } else if successes == 0 {
            ended.refusal_noted(last_error, now)
        } else {
            ModelState { holding_manual_override: true, ..ended }
        }
    }

    /// The `initialize` command: the controller is marked initialized and,
    /// the first time, refreshed (`t0` to `t2`) and the initial notice shown
    /// (`t3`).
    pub open spec fn initialize_command(
        self,
        fans_reading: Result<Seq<Fan<R>>, String>,
        sensors_reading: Result<Seq<T>, String>,
        t0: u64,
        t1: u64,
        t2: u64,
        t3: u64,
    ) -> Self {
        let marked = ModelState { initialized: true, ..self };
        if !self.initialized {
            marked.refreshed(fans_reading, sensors_reading, t0, t1, t2).notice_presented(t3)
        } else {
            marked
        }
    }

    /// The `tick` command: an expired error is taken away (`t0`), a held
    /// override is kept alive with the answer `keep_alive` (`t1`), then the
    /// controller is refreshed (`t2` to `t4`).
    pub open spec fn tick_command(
        self,
        keep_alive: Result<(), String>,
        fans_reading: Result<Seq<Fan<R>>, String>,
        sensors_reading: Result<Seq<T>, String>,
        t0: u64,
        t1: u64,
        t2: u64,
        t3: u64,
        t4: u64,
    ) -> Self {
        let cleared = self.expired_error_cleared(t0);
        let kept = if self.holding_manual_override {
            cleared.answer_noted(keep_alive, t1)
        } else {
            cleared
        };
        kept.refreshed(fans_reading, sensors_reading, t2, t3, t4)
    }

    /// The `set_auto` command: a new action starts (`t0`); when some fan is
    /// controlled, its signals end with `successes` through and the last
    /// refusal `last_error` (`t1`), and a success is followed by a refresh
    /// (`t2` to `t4`).
    pub open spec fn auto_command(
        self,
        successes: nat,
        last_error: Option<String>,
        fans_reading: Result<Seq<Fan<R>>, String>,
        sensors_reading: Result<Seq<T>, String>,
        t0: u64,
        t1: u64,
        t2: u64,
        t3: u64,
        t4: u64,
    ) -> Self {
        let started = self.expired_error_cleared(t0).action_started();
        if started.target_ids().len() == 0 {
            started
        } else {
            let finished = started.auto_finished(successes, last_error, t1);
            if successes > 0 {
                finished.refreshed(fans_reading, sensors_reading, t2, t3, t4)
            } else {
                finished
            }
        }
    }

    /// A manual control command (`set_manual_rpm`) aimed at `target_mode`:
    /// a new action starts (`t0`); when some fan is controlled its attempts
    /// are shown, each round is checked against the action's token (which
    /// leaves the state as it is while the action is the latest), the action
    /// ends with `successes` signals through and the last refusal
    /// `last_error` (`t1`), and a success is followed by a refresh (`t2` to
    /// `t4`).
    pub open spec fn manual_command(
        self,
        target_mode: FanControlMode,
        successes: nat,
        last_error: Option<String>,
        fans_reading: Result<Seq<Fan<R>>, String>,
        sensors_reading: Result<Seq<T>, String>,
        t0: u64,
        t1: u64,
        t2: u64,
        t3: u64,
        t4: u64,
    ) -> Self {
        let started = self.expired_error_cleared(t0).action_started();
        if started.control_targets().len() == 0 {
            started
        } else {
            let begun = ModelState {
                is_sending_control_attempts: true,
                control_attempt_target_mode: Some(target_mode),
                ..started
            };
            let token = begun.control_action_token;
            let checked = begun.round_checked(token);
            let finished = checked.manual_finished(token, successes, last_error, t1);
            if checked.control_action_token == token && successes > 0 {
                finished.refreshed(fans_reading, sensors_reading, t2, t3, t4)
            } else {
                finished
            }
        }
    }

    /// The `set_control_min` and `set_control_max` commands: the manual
    /// command when all fans or some fan are controlled, else nothing.
    pub open spec fn bound_command(
        self,
        target_mode: FanControlMode,
        successes: nat,
        last_error: Option<String>,
        fans_reading: Result<Seq<Fan<R>>, String>,
        sensors_reading: Result<Seq<T>, String>,
        t0: u64,
        t1: u64,
        t2: u64,
        t3: u64,
        t4: u64,
    ) -> Self {
        if self.controls_all_fans() || self.control_targets().len() > 0 {
            self.manual_command(
                target_mode,
                successes,
                last_error,
                fans_reading,
                sensors_reading,
                t0,
                t1,
                t2,
                t3,
                t4,
            )
        } else {
            self
        }
    }

    /// No control attempts are shown as under way.
    pub open spec fn progress_idle(self) -> bool {
        !self.is_sending_control_attempts && self.control_attempt_target_mode is None
    }

    /// The error on screen and its expiry are there together or not at all.
    pub open spec fn banner_consistent(self) -> bool {
        self.error_text is Some <==> self.error_expiry is Some
    }
}

/// The controller. The speed readings of a fan (`R`) and the temperature
/// sensor records (`T`) are carried along without being inspected.
pub struct AppModel<R, T> {
    provider_name: String,
    fans: Vec<Fan<R>>,
    temperature_sensors: Vec<T>,
    selected_fan_id: i32,
    is_sending_control_attempts: bool,
    control_attempt_target_mode: Option<FanControlMode>,
    error_text: Option<String>,
    error_expiry: Option<u64>,
    processor_name: String,
    holding_manual_override: bool,
    control_action_token: u64,
    initial_notice: Option<String>,
    initialized: bool,
}

impl<R, T> View for AppModel<R, T> {
    type V = ModelState<R, T>;

    closed spec fn view(&self) -> ModelState<R, T> {
        ModelState {
            provider_name: self.provider_name,
            fans: self.fans@,
            temperature_sensors: self.temperature_sensors@,
            selected_fan_id: self.selected_fan_id,
            is_sending_control_attempts: self.is_sending_control_attempts,
            control_attempt_target_mode: self.control_attempt_target_mode,
            error_text: self.error_text,
            error_expiry: self.error_expiry,
            processor_name: self.processor_name,
            holding_manual_override: self.holding_manual_override,
            control_action_token: self.control_action_token,
            initial_notice: self.initial_notice,
            initialized: self.initialized,
        }
    }
}

/// What the user interface shows of the controller's state; the speed
/// readings themselves are read from `AppModel::fans`.
pub struct ControlSnapshot {
    pub selected_fan_id: i32,
    pub all_fans_id: i32,
    pub controls_all_fans: bool,
    pub selected_fan_index: Option<usize>,
    pub active_control_mode: Option<FanControlMode>,
    pub is_sending_control_attempts: bool,
    pub control_attempt_target_mode: Option<FanControlMode>,
    pub shows_control_attempt_progress: bool,
    pub error_text: Option<String>,
    pub processor_name: String,
    pub provider_name: String,
}

impl<R, T> AppModel<R, T> {
    /// A controller that has read nothing yet.
    pub fn new(provider_name: String, processor_name: String, initial_notice: Option<String>) -> (model: Self)
        ensures
            model@ == (ModelState::<R, T> {
                provider_name,
                fans: Seq::empty(),
                temperature_sensors: Seq::empty(),
                selected_fan_id: 0,
                is_sending_control_attempts: false,
                control_attempt_target_mode: None,
                error_text: None,
                error_expiry: None,
                processor_name,
                holding_manual_override: false,
                control_action_token: 0,
                initial_notice,
                initialized: false,
            }),
            model@.progress_idle(),
    {
        AppModel {
            provider_name,
            fans: Vec::new(),
            temperature_sensors: Vec::new(),
            selected_fan_id: 0,
            is_sending_control_attempts: false,
            control_attempt_target_mode: None,
            error_text: None,
            error_expiry: None,
            processor_name,
            holding_manual_override: false,
            control_action_token: 0,
            initial_notice,
            initialized: false,
        }
    }

    /// Takes away an error whose display time is over at `now`.
    pub fn clear_expired_error(&mut self, now: u64)
        ensures
            final(self)@ == old(self)@.expired_error_cleared(now),
    {
        let expired = match self.error_expiry {
            Some(expiry) => now >= expiry,
            None => false,
        };
        if expired {
            self.error_text = None;
            self.error_expiry = None;
        }
    }

    /// Puts `message` on screen at `now`, unless it is there already.
    fn present_error(&mut self, message: String, now: u64)
        requires
            valid_now(now),
        ensures
            final(self)@ == old(self)@.error_presented(message, now),
    {
        let same_text = match &self.error_text {
            Some(text) => *text == message,
            None => false,
        };
        let unexpired = match self.error_expiry {
            Some(expiry) => now < expiry,
            None => false,
        };
        if same_text && unexpired {
            return;
        }
        self.error_text = Some(message);
        self.error_expiry = Some(now + ERROR_DISPLAY_MS);
    }

    /// Takes the error off the screen.
    pub fn dismiss_error(&mut self)
        ensures
            final(self)@ == old(self)@.error_dismissed(),
    {
        self.error_text = None;
        self.error_expiry = None;
    }

    /// Stops showing control attempts as under way.
    fn end_control_attempt_progress(&mut self)
        ensures
            final(self)@ == old(self)@.progress_ended(),
    {
        self.is_sending_control_attempts = false;
        self.control_attempt_target_mode = None;
    }

    /// Shows control attempts aimed at `target_mode` as under way.
    fn begin_control_attempt_progress(&mut self, target_mode: FanControlMode)
        ensures
            final(self)@ == (ModelState {
                is_sending_control_attempts: true,
                control_attempt_target_mode: Some(target_mode),
                ..old(self)@
            }),
    {
        self.is_sending_control_attempts = true;
        self.control_attempt_target_mode = Some(target_mode);
    }

    /// Starts a new control action and returns its token: the token moves
    /// on by one (staying at its largest value once there), and attempts of
    /// an earlier action stop being shown.
    pub fn start_control_action(&mut self) -> (token: u64)
        ensures
            final(self)@ == old(self)@.action_started(),
            token == final(self)@.control_action_token,
            token == old(self)@.control_action_token.saturating_add(1),
            !final(self)@.is_sending_control_attempts,
            final(self)@.control_attempt_target_mode is None,
    {
        self.control_action_token = self.control_action_token.saturating_add(1);
        self.end_control_attempt_progress();
        self.control_action_token
    }

    /// Whether `token` belongs to the latest control action.
    pub fn is_control_action_current(&self, token: u64) -> (current: bool)
        ensures
            current == (self@.control_action_token == token),
    {
        self.control_action_token == token
    }

    /// Whether all fans are controlled together.
    pub fn controls_all_fans(&self) -> (all: bool)
        ensures
            all == self@.controls_all_fans(),
    {
        self.selected_fan_id == ALL_FANS_SELECTION_ID
    }

    /// The position of the single selected fan, if one is selected and there.
    pub fn selected_fan_index(&self) -> (found: Option<usize>)
        ensures
            match found {
                Some(i) => self@.selected_index() == Some(i as int),
                None => self@.selected_index() is None,
            },
    {
        if self.controls_all_fans() {
            return None;
        }
        index_of_fan(&self.fans, self.selected_fan_id)
    }

    /// The positions of the fans a control action acts on.
    pub fn control_target_indices(&self) -> (targets: Vec<usize>)
        ensures
            targets@.map_values(|i: usize| i as int) == self@.control_targets(),
            forall|k: int| 0 <= k < targets@.len() ==> #[trigger] targets@[k] < self@.fans.len(),
    {
        let mut targets: Vec<usize> = Vec::new();
        if self.controls_all_fans() {
            let n = self.fans.len();
            let mut i: usize = 0;
            while i < n
                invariant
                    n == self@.fans.len(),
                    i <= n,
                    targets@.len() == i,
                    forall|k: int| 0 <= k < i ==> #[trigger] targets@[k] == k,
                decreases n - i,
            {
                targets.push(i);
                i = i + 1;
            }
            assert(targets@.map_values(|i: usize| i as int) =~= self@.control_targets());
        } else {
            match self.selected_fan_index() {
                Some(i) => {
                    proof {
                        law_first_index_found(self@.fans, self@.selected_fan_id);
                    }
                    targets.push(i);
                    assert(targets@.map_values(|i: usize| i as int) =~= self@.control_targets());
                },
                None => {
                    assert(targets@.map_values(|i: usize| i as int) =~= self@.control_targets());
                },
            }
        }
        targets
    }

    /// The ids of the fans a control action acts on.
    pub fn control_target_ids(&self) -> (ids: Vec<i32>)
        ensures
            ids@ == self@.target_ids(),
    {
        let targets = self.control_target_indices();
        let mut ids: Vec<i32> = Vec::new();
        let mut k: usize = 0;
        while k < targets.len()
            invariant
                k <= targets@.len(),
                targets@.map_values(|i: usize| i as int) == self@.control_targets(),
                forall|j: int| 0 <= j < targets@.len() ==> #[trigger] targets@[j] < self@.fans.len(),
                ids@.len() == k,
                forall|j: int|
                    0 <= j < k ==> #[trigger] ids@[j] == self@.fans[targets@[j] as int].id,
            decreases targets@.len() - k,
        {
            let i = targets[k];
            ids.push(self.fans[i].id);
            k = k + 1;
        }
        assert(ids@ =~= self@.target_ids()) by {
            assert forall|j: int| 0 <= j < ids@.len() implies ids@[j] == self@.target_ids()[j] by {
                assert(self@.control_targets()[j] == targets@[j] as int);
            }
        }
        ids
    }

    /// The mode codes of the fans a control action acts on.
    fn control_target_codes(&self) -> (codes: Vec<u8>)
        ensures
            codes@ == self@.target_codes(),
    {
        let targets = self.control_target_indices();
        let mut codes: Vec<u8> = Vec::new();
        let mut k: usize = 0;
        while k < targets.len()
            invariant
                k <= targets@.len(),
                targets@.map_values(|i: usize| i as int) == self@.control_targets(),
                forall|j: int| 0 <= j < targets@.len() ==> #[trigger] targets@[j] < self@.fans.len(),
                codes@.len() == k,
                forall|j: int|
                    0 <= j < k ==> #[trigger] codes@[j] == self@.fans[targets@[j] as int].mode,
            decreases targets@.len() - k,
        {
            let i = targets[k];
            codes.push(self.fans[i].mode);
            k = k + 1;
        }
        assert(codes@ =~= self@.target_codes()) by {
            assert forall|j: int| 0 <= j < codes@.len() implies codes@[j] == self@.target_codes()[j] by {
                assert(self@.control_targets()[j] == targets@[j] as int);
            }
        }
        codes
    }
}

impl<R, T> AppModel<R, T> {
    /// Marks the controller as initialized; returns whether this is the
    /// first time, when the fans are to be read and the initial notice shown.
    pub fn start_initialization(&mut self) -> (first_time: bool)
        ensures
            first_time == !old(self)@.initialized,
            final(self)@ == (ModelState { initialized: true, ..old(self)@ }),
    {
        let first_time = !self.initialized;
        self.initialized = true;
        first_time
    }

    /// After the first reading: puts the initial notice, if any, on screen,
    /// once.
    pub fn finish_initialization(&mut self, now: u64)
        requires
            valid_now(now),
        ensures
            final(self)@ == old(self)@.notice_presented(now),
    {
        let notice = self.initial_notice.take();
        match notice {
            Some(message) => self.present_error(message, now),
            None => {},
        }
    }

    /// Starts a periodic update at `now`: takes away an expired error and
    /// returns whether the manual override has to be kept alive.
    pub fn begin_tick(&mut self, now: u64) -> (keep_alive: bool)
        ensures
            final(self)@ == old(self)@.expired_error_cleared(now),
            keep_alive == old(self)@.holding_manual_override,
    {
        self.clear_expired_error(now);
        self.holding_manual_override
    }

    /// Takes the answer to keeping the manual override alive; a failure is
    /// put on screen.
    pub fn record_keep_alive(&mut self, answer: Result<(), String>, now: u64)
        requires
            valid_now(now),
        ensures
            final(self)@ == old(self)@.answer_noted(answer, now),
    {
        match answer {
            Ok(_) => {},
            Err(e) => self.present_error(e, now),
        }
    }

    /// Takes the fans just read; returns whether the temperature sensors are
    /// to be read next. A failed reading is put on screen, keeps the fans
    /// last read and drops the sensors.
    pub fn apply_fans_read(&mut self, reading: Result<Vec<Fan<R>>, String>, now: u64) -> (read_sensors: bool)
        requires
            valid_now(now),
        ensures
            read_sensors == reading is Ok,
            final(self)@ == old(self)@.fans_applied(
                match reading {
                    Ok(fans) => Ok(fans@),
                    Err(e) => Err(e),
                },
                now,
            ),
    {
        match reading {
            Ok(fans) => {
                self.fans = fans;
                true
            },
            Err(e) => {
                self.present_error(e, now);
                self.temperature_sensors = Vec::new();
                false
            },
        }
    }

    /// Takes the temperature sensors just read (a failed reading is put on
    /// screen and drops the sensors), then keeps the selection valid for the
    /// fans now known.
    pub fn apply_sensors_read(&mut self, reading: Result<Vec<T>, String>, now: u64)
        requires
            valid_now(now),
        ensures
            final(self)@ == old(self)@.sensors_applied(
                match reading {
                    Ok(sensors) => Ok(sensors@),
                    Err(e) => Err(e),
                },
                now,
            ),
    {
        match reading {
            Ok(sensors) => {
                self.temperature_sensors = sensors;
            },
            Err(e) => {
                self.present_error(e, now);
                self.temperature_sensors = Vec::new();
            },
        }
        self.selected_fan_id = normalize_selection(&self.fans, self.selected_fan_id);
    }

    /// Selects the fan with the id `selected_fan_id`, or all fans; falls back
    /// to the first fan when that fan is not there, and to all fans when
    /// there is none.
    pub fn set_selected_fan(&mut self, selected_fan_id: i32)
        ensures
            final(self)@ == (ModelState {
                selected_fan_id: normalized_selection(old(self)@.fans, selected_fan_id),
                ..old(self)@
            }),
    {
        self.selected_fan_id = normalize_selection(&self.fans, selected_fan_id);
    }

    /// Whether a request for the minimum or the maximum speed is acted on:
    /// when all fans are controlled, or some fan is controlled.
    pub fn bound_control_applies(&self) -> (applies: bool)
        ensures
            applies == (self@.controls_all_fans() || self@.control_targets().len() > 0),
    {
        if self.controls_all_fans() {
            true
        } else {
            let targets = self.control_target_indices();
            targets.len() > 0
        }
    }

    /// Starts handing the controlled fans back to the hardware at `now`:
    /// takes away an expired error, starts a new control action, and returns
    /// the ids of the fans to signal (none: nothing more to do).
    pub fn begin_auto_control(&mut self, now: u64) -> (fan_ids: Vec<i32>)
        ensures
            final(self)@ == old(self)@.expired_error_cleared(now).action_started(),
            fan_ids@ == final(self)@.target_ids(),
    {
        self.clear_expired_error(now);
        self.start_control_action();
        self.control_target_ids()
    }

    /// Ends handing fans back to the hardware with the answers `tally`;
    /// returns whether the fans are to be read again. When no signal
    /// succeeded, the last refusal is put on screen; otherwise the manual
    /// override is released.
    pub fn finish_auto_control(&mut self, tally: SignalTally, now: u64) -> (refresh: bool)
        requires
            valid_now(now),
        ensures
            refresh == (tally.successful_signals > 0),
            final(self)@ == old(self)@.auto_finished(
                tally.successful_signals as nat,
                tally.last_error,
                now,
            ),
    {
        if tally.successful_signals == 0 {
            match tally.last_error {
                Some(e) => self.present_error(e, now),
                None => {},
            }
            return false;
        }
        self.holding_manual_override = false;
        true
    }

    /// Starts a manual control action aimed at `target_mode` at `now`: takes
    /// away an expired error and starts a new control action. When some fan
    /// is controlled, shows the attempts as under way and returns the run
    /// that counts its rounds.
    pub fn begin_manual_control(&mut self, target_mode: FanControlMode, now: u64) -> (run: Option<ManualRun>)
        ensures
            ({
                let started = old(self)@.expired_error_cleared(now).action_started();
                if started.control_targets().len() == 0 {
                    &&& run is None
                    &&& final(self)@ == started
                } else {
                    &&& run matches Some(r) && r.token == started.control_action_token
                        && r.rounds_completed == 0 && r.tally.successful_signals == 0
                        && r.tally.last_error is None
                    &&& final(self)@ == ModelState {
                        is_sending_control_attempts: true,
                        control_attempt_target_mode: Some(target_mode),
                        ..started
                    }
                }
            }),
    {
        self.clear_expired_error(now);
        let token = self.start_control_action();
        let targets = self.control_target_indices();
        if targets.len() == 0 {
            return None;
        }
        self.begin_control_attempt_progress(target_mode);
        Some(ManualRun::new(token))
    }

    /// Whether the next round of `run` may go out: only while its action is
    /// the latest one; otherwise the attempts stop being shown.
    pub fn manual_round_may_start(&mut self, run: &ManualRun) -> (go: bool)
        ensures
            go == (old(self)@.control_action_token == run.token),
            final(self)@ == old(self)@.round_checked(run.token),
    {
        if !self.is_control_action_current(run.token) {
            self.end_control_attempt_progress();
            return false;
        }
        true
    }

    /// Ends the manual control action `run` at `now`; returns whether the
    /// fans are to be read again. A superseded action only stops showing its
    /// attempts. Otherwise, when no signal succeeded the last refusal is put
    /// on screen, and when one did the manual override is held.
    pub fn finish_manual_control(&mut self, run: ManualRun, now: u64) -> (refresh: bool)
        requires
            valid_now(now),
        ensures
            refresh == (old(self)@.control_action_token == run.token
                && run.tally.successful_signals > 0),
            final(self)@ == old(self)@.manual_finished(
                run.token,
                run.tally.successful_signals as nat,
                run.tally.last_error,
                now,
            ),
    {
        if !self.is_control_action_current(run.token) {
            self.end_control_attempt_progress();
            return false;
        }
        self.end_control_attempt_progress();
        if run.tally.successful_signals == 0 {
            match run.tally.last_error {
                Some(e) => self.present_error(e, now),
                None => {},
            }
            return false;
        }
        self.holding_manual_override = true;
        true
    }

    /// What the user interface shows at `now`, after an expired error is
    /// taken away; `facts` says what the speed readings of the controlled
    /// fans show, in the order of `control_target_indices`.
    pub fn snapshot(&mut self, now: u64, facts: &Vec<FanRpmFacts>) -> (shown: ControlSnapshot)
        requires
            facts@.len() == old(self)@.control_targets().len(),
        ensures
            final(self)@ == old(self)@.expired_error_cleared(now),
            ({
                let m = final(self)@;
                let active = active_mode_spec(
                    m.target_codes(),
                    facts@,
                    m.holding_manual_override,
                    m.controls_all_fans(),
                );
                &&& shown.selected_fan_id == m.selected_fan_id
                &&& shown.all_fans_id == ALL_FANS_SELECTION_ID
                &&& shown.controls_all_fans == m.controls_all_fans()
                &&& match shown.selected_fan_index {
                    Some(i) => m.selected_index() == Some(i as int),
                    None => m.selected_index() is None,
                }
                &&& shown.active_control_mode == active
                &&& shown.is_sending_control_attempts == m.is_sending_control_attempts
                &&& shown.control_attempt_target_mode == m.control_attempt_target_mode
                &&& shown.shows_control_attempt_progress == shows_progress_spec(
                    m.is_sending_control_attempts,
                    m.control_attempt_target_mode,
                    active,
                )
                &&& shown.error_text == m.error_text
                &&& shown.processor_name == m.processor_name
                &&& shown.provider_name == m.provider_name
            }),
    {
        self.clear_expired_error(now);
        let codes = self.control_target_codes();
        let active = active_control_mode(
            &codes,
            facts,
            self.holding_manual_override,
            self.controls_all_fans(),
        );
        let shows = shows_control_attempt_progress(
            self.is_sending_control_attempts,
            self.control_attempt_target_mode,
            active,
        );
        let error_text = match &self.error_text {
            Some(text) => Some(text.clone()),
            None => None,
        };
        ControlSnapshot {
            selected_fan_id: self.selected_fan_id,
            all_fans_id: ALL_FANS_SELECTION_ID,
            controls_all_fans: self.controls_all_fans(),
            selected_fan_index: self.selected_fan_index(),
            active_control_mode: active,
            is_sending_control_attempts: self.is_sending_control_attempts,
            control_attempt_target_mode: self.control_attempt_target_mode,
            shows_control_attempt_progress: shows,
            error_text,
            processor_name: self.processor_name.clone(),
            provider_name: self.provider_name.clone(),
        }
    }
}

impl<R, T> AppModel<R, T> {
    /// The debug listing: the processor name, an empty line, then one line
    /// per temperature sensor (`sensor_lines`, each already written as
    /// "key: value").
    pub fn debug_text(&self, sensor_lines: &Vec<String>) -> (text: String)
        ensures
            text@ == joined(
                seq![self@.processor_name@, Seq::<char>::empty()] + sensor_lines@.map_values(
                    |l: String| l@,
                ),
                "\n"@,
            ),
    {
        let mut lines: Vec<String> = Vec::new();
        lines.push(self.processor_name.clone());
        lines.push(String::new());
        let mut i: usize = 0;
        while i < sensor_lines.len()
            invariant
                i <= sensor_lines@.len(),
                lines@.len() == i + 2,
                lines@[0]@ == self@.processor_name@,
                lines@[1]@ == Seq::<char>::empty(),
                forall|k: int| 0 <= k < i ==> #[trigger] lines@[k + 2]@ == sensor_lines@[k]@,
            decreases sensor_lines@.len() - i,
        {
            lines.push(sensor_lines[i].clone());
            i = i + 1;
        }
        let text = join_lines(&lines);
        assert(lines@.map_values(|l: String| l@) =~= seq![
            self@.processor_name@,
            Seq::<char>::empty(),
        ] + sensor_lines@.map_values(|l: String| l@)) by {
            let a = lines@.map_values(|l: String| l@);
            let b = seq![self@.processor_name@, Seq::<char>::empty()] + sensor_lines@.map_values(
                |l: String| l@,
            );
            assert forall|k: int| 0 <= k < a.len() implies a[k] == b[k] by {
                if k >= 2 {
                    assert(lines@[(k - 2) + 2]@ == sensor_lines@[k - 2]@);
                }
            }
        }
        text
    }

    /// The fans last read.
    pub fn fans(&self) -> (fans: &Vec<Fan<R>>)
        ensures
            fans@ == self@.fans,
    {
        &self.fans
    }

    /// The temperature sensors last read.
    pub fn temperature_sensors(&self) -> (sensors: &Vec<T>)
        ensures
            sensors@ == self@.temperature_sensors,
    {
        &self.temperature_sensors
    }
}

/// Law: every step keeps the error on screen and its expiry together.
pub proof fn law_banner_stays_consistent<R, T>(
    s: ModelState<R, T>,
    message: String,
    answer: Result<(), String>,
    last_error: Option<String>,
    now: u64,
)
    requires
        s.banner_consistent(),
    ensures
        s.expired_error_cleared(now).banner_consistent(),
        s.error_presented(message, now).banner_consistent(),
        s.error_dismissed().banner_consistent(),
        s.progress_ended().banner_consistent(),
        s.action_started().banner_consistent(),
        s.answer_noted(answer, now).banner_consistent(),
        s.refusal_noted(last_error, now).banner_consistent(),
{
}

/// Law: an error put on screen shows its message; it stays on screen until
/// its expiry, which lies after the moment it was put there and, unless the
/// same message was already on screen, the display time later; from its
/// expiry on it is taken away.
pub proof fn law_error_shown_until_expiry<R, T>(
    s: ModelState<R, T>,
    message: String,
    now: u64,
    later: u64,
)
    requires
        valid_now(now),
    ensures
        ({
            let p = s.error_presented(message, now);
            &&& p.error_text matches Some(text) && text@ == message@
            &&& p.error_expiry matches Some(expiry) && now < expiry
            &&& !s.shows_error(message, now) ==> p.error_expiry == Some(
                (now + ERROR_DISPLAY_MS) as u64,
            )
            &&& (p.error_expiry matches Some(expiry) && later < expiry)
                ==> p.expired_error_cleared(later) == p
            &&& (p.error_expiry matches Some(expiry) && later >= expiry)
                ==> p.expired_error_cleared(later).error_text is None
        }),
{
}

/// Law: putting a message on screen again while it is still there changes
/// nothing: its display time is not extended.
pub proof fn law_repeated_error_not_extended<R, T>(
    s: ModelState<R, T>,
    message: String,
    again: String,
    now: u64,
    later: u64,
)
    requires
        valid_now(now),
        again@ == message@,
        now <= later,
        s.error_presented(message, now).error_expiry matches Some(expiry) && later < expiry,
    ensures
        s.error_presented(message, now).error_presented(again, later) == s.error_presented(
            message,
            now,
        ),
{
}

/// Law: a dismissed error is gone, and stays gone when expired errors are
/// taken away.
pub proof fn law_dismissed_error_is_gone<R, T>(s: ModelState<R, T>, now: u64)
    ensures
        s.error_dismissed().error_text is None,
        s.error_dismissed().expired_error_cleared(now) == s.error_dismissed(),
{
}

/// Law: the initial notice is shown once: after it is put on screen it is
/// forgotten, so showing it again changes nothing.
pub proof fn law_notice_shown_once<R, T>(s: ModelState<R, T>, now: u64, later: u64)
    requires
        valid_now(now),
    ensures
        s.notice_presented(now).initial_notice is None,
        s.notice_presented(now).notice_presented(later) == s.notice_presented(now),
        s.initial_notice matches Some(notice) ==> (s.notice_presented(now).error_text matches Some(
            text,
        ) && text@ == notice@),
{
}

/// Law: no command leaves control attempts shown as under way. Steps that
/// take readings, answers, selections or errors keep an idle state idle;
/// starting an action, handing fans back, a manual action without fans, a
/// superseded round and the end of a manual action all leave it idle
/// whatever state they start from; and an idle state shows no progress.
pub proof fn law_commands_end_progress<R, T>(
    s: ModelState<R, T>,
    message: String,
    answer: Result<(), String>,
    last_error: Option<String>,
    fans: Seq<Fan<R>>,
    sensors: Seq<T>,
    requested: i32,
    active: Option<FanControlMode>,
    now: u64,
)
    requires
        valid_now(now),
    ensures
        s.progress_idle() ==> {
            &&& s.expired_error_cleared(now).progress_idle()
            &&& s.error_presented(message, now).progress_idle()
            &&& s.error_dismissed().progress_idle()
            &&& s.notice_presented(now).progress_idle()
            &&& s.answer_noted(answer, now).progress_idle()
            &&& s.refusal_noted(last_error, now).progress_idle()
            &&& (ModelState { fans, ..s }).progress_idle()
            &&& (ModelState { temperature_sensors: sensors, ..s }).progress_idle()
            &&& (ModelState { selected_fan_id: requested, ..s }).progress_idle()
            &&& (ModelState { initialized: true, ..s }).progress_idle()
            &&& (ModelState { holding_manual_override: false, ..s }).progress_idle()
        },
        s.action_started().progress_idle(),
        s.expired_error_cleared(now).action_started().progress_idle(),
        s.progress_ended().progress_idle(),
        s.progress_ended().refusal_noted(last_error, now).progress_idle(),
        (ModelState { holding_manual_override: true, ..s.progress_ended() }).progress_idle(),
        s.progress_idle() ==> !shows_progress_spec(
            s.is_sending_control_attempts,
            s.control_attempt_target_mode,
            active,
        ),
{
}

/// Law: no command leaves control attempts shown as under way. From a
/// state with no attempts shown (as `new` makes), every command
/// (`initialize`, `tick`, `set_selected_fan`, `dismiss_error`,
/// `set_manual_rpm`, `set_control_min`, `set_control_max`, `set_auto`),
/// whatever the hardware answers and whatever the clock says, ends with no
/// attempts shown; and the snapshot taken after it shows no progress.
pub proof fn law_no_command_leaves_progress<R, T>(
    s: ModelState<R, T>,
    target_mode: FanControlMode,
    requested: i32,
    keep_alive: Result<(), String>,
    successes: nat,
    last_error: Option<String>,
    fans_reading: Result<Seq<Fan<R>>, String>,
    sensors_reading: Result<Seq<T>, String>,
    active: Option<FanControlMode>,
    t0: u64,
    t1: u64,
    t2: u64,
    t3: u64,
    t4: u64,
)
    requires
        s.progress_idle(),
        valid_now(t1),
        valid_now(t2),
        valid_now(t3),
        valid_now(t4),
    ensures
        s.initialize_command(fans_reading, sensors_reading, t0, t1, t2, t3).progress_idle(),
        s.tick_command(keep_alive, fans_reading, sensors_reading, t0, t1, t2, t3, t4).progress_idle(),
        (ModelState {
            selected_fan_id: normalized_selection(s.fans, requested),
            ..s
        }).progress_idle(),
        s.error_dismissed().progress_idle(),
        s.manual_command(
            target_mode,
            successes,
            last_error,
            fans_reading,
            sensors_reading,
            t0,
            t1,
            t2,
            t3,
            t4,
        ).progress_idle(),
        s.bound_command(
            target_mode,
            successes,
            last_error,
            fans_reading,
            sensors_reading,
            t0,
            t1,
            t2,
            t3,
            t4,
        ).progress_idle(),
        s.auto_command(successes, last_error, fans_reading, sensors_reading, t0, t1, t2, t3, t4)
            .progress_idle(),
        s.expired_error_cleared(t0).progress_idle(),
        !shows_progress_spec(
            s.expired_error_cleared(t0).is_sending_control_attempts,
            s.expired_error_cleared(t0).control_attempt_target_mode,
            active,
        ),
{
}

/// Law: how handing fans back ends. When some signal went through, the
/// override is released and nothing else changes: no error is put on
/// screen, and the one on screen stays. When none went through, the
/// override stays as it was, and the last refusal is on screen (nothing
/// changes when there was none).
pub proof fn law_auto_finish_meaning<R, T>(
    s: ModelState<R, T>,
    successes: nat,
    last_error: Option<String>,
    now: u64,
)
    requires
        valid_now(now),
    ensures
        successes > 0 ==> {
            let r = s.auto_finished(successes, last_error, now);
            &&& !r.holding_manual_override
            &&& r.error_text == s.error_text
            &&& r.error_expiry == s.error_expiry
            &&& r == ModelState { holding_manual_override: false, ..s }
        },
        successes == 0 ==> {
            let r = s.auto_finished(successes, last_error, now);
            &&& r.holding_manual_override == s.holding_manual_override
            &&& (last_error matches Some(e) ==> (r.error_text matches Some(t) && t@ == e@))
            &&& (last_error is None ==> r == s)
        },
{
}

/// Law: how a manual action ends. Its attempts stop being shown in every
/// case. A superseded action changes nothing else. Otherwise, when some
/// signal went through the override is held and the error on screen is
/// left alone; when none went through the override stays as it was and the
/// last refusal is on screen.
pub proof fn law_manual_finish_meaning<R, T>(
    s: ModelState<R, T>,
    token: u64,
    successes: nat,
    last_error: Option<String>,
    now: u64,
)
    requires
        valid_now(now),
    ensures
        ({
            let r = s.manual_finished(token, successes, last_error, now);
            &&& !r.is_sending_control_attempts
            &&& r.control_attempt_target_mode is None
            &&& r.fans == s.fans
            &&& r.selected_fan_id == s.selected_fan_id
            &&& r.control_action_token == s.control_action_token
            &&& (s.control_action_token != token ==> {
                &&& r.holding_manual_override == s.holding_manual_override
                &&& r.error_text == s.error_text
                &&& r.error_expiry == s.error_expiry
            })
            &&& (s.control_action_token == token && successes > 0 ==> {
                &&& r.holding_manual_override
                &&& r.error_text == s.error_text
                &&& r.error_expiry == s.error_expiry
            })
            &&& (s.control_action_token == token && successes == 0 ==> {
                &&& r.holding_manual_override == s.holding_manual_override
                &&& (last_error matches Some(e) ==> (r.error_text matches Some(t) && t@ == e@))
                &&& (last_error is None ==> r.error_text == s.error_text)
            })
        }),
{
}

/// Law: reading the sensors keeps a selection that is still valid. The
/// fans are left as they are; a selected fan that is among them stays
/// selected, and so does "all fans" while there is a fan; with no fan the
/// selection becomes "all fans", and a selected fan that is gone gives way
/// to the first fan.
pub proof fn law_sensor_read_keeps_valid_selection<R, T>(
    s: ModelState<R, T>,
    reading: Result<Seq<T>, String>,
    now: u64,
)
    requires
        valid_now(now),
    ensures
        ({
            let r = s.sensors_applied(reading, now);
            let present = exists|i: int|
                0 <= i < s.fans.len() && #[trigger] s.fans[i].id == s.selected_fan_id;
            &&& r.fans == s.fans
            &&& (s.fans.len() == 0 ==> r.selected_fan_id == ALL_FANS_SELECTION_ID)
            &&& (present ==> r.selected_fan_id == s.selected_fan_id)
            &&& (s.fans.len() > 0 && s.selected_fan_id == ALL_FANS_SELECTION_ID
                ==> r.selected_fan_id == ALL_FANS_SELECTION_ID)
            &&& (s.fans.len() > 0 && s.selected_fan_id != ALL_FANS_SELECTION_ID && !present
                ==> r.selected_fan_id == s.fans[0].id)
        }),
{
}

/// Law: a refresh keeps a selection that is still valid: when the fans read
/// include the selected fan, it stays selected, and "all fans" stays
/// selected while some fan is read.
pub proof fn law_refresh_keeps_valid_selection<R, T>(
    s: ModelState<R, T>,
    fans: Seq<Fan<R>>,
    sensors_reading: Result<Seq<T>, String>,
    t0: u64,
    t1: u64,
    t2: u64,
)
    requires
        valid_now(t1),
        valid_now(t2),
    ensures
        (exists|i: int| 0 <= i < fans.len() && #[trigger] fans[i].id == s.selected_fan_id)
            ==> s.refreshed(Ok(fans), sensors_reading, t0, t1, t2).selected_fan_id
            == s.selected_fan_id,
        fans.len() > 0 && s.selected_fan_id == ALL_FANS_SELECTION_ID ==> s.refreshed(
            Ok(fans),
            sensors_reading,
            t0,
            t1,
            t2,
        ).selected_fan_id == ALL_FANS_SELECTION_ID,
        s.refreshed(Ok(fans), sensors_reading, t0, t1, t2).fans == fans,
{
    let before = s.expired_error_cleared(t0).fans_applied(Ok(fans), t1);
    law_sensor_read_keeps_valid_selection(before, sensors_reading, t2);
}

/// Law: the initial notice is shown like any error. It is forgotten, its
/// text is on screen with an expiry after `now`, the error on screen and its
/// expiry stay together, and unless the same text was already on screen it
/// expires after the display time, so it is gone once that time is over.
pub proof fn law_notice_shown_as_error<R, T>(s: ModelState<R, T>, now: u64)
    requires
        valid_now(now),
        s.banner_consistent(),
    ensures
        s.initial_notice matches Some(notice) ==> {
            let r = s.notice_presented(now);
            &&& r.initial_notice is None
            &&& r.banner_consistent()
            &&& r.error_text matches Some(t) && t@ == notice@
            &&& r.error_expiry matches Some(e) && now < e
            &&& !((s.error_text matches Some(t) && t@ == notice@) && (s.error_expiry matches Some(
                e,
            ) && now < e)) ==> {
                &&& r.error_expiry == Some((now + ERROR_DISPLAY_MS) as u64)
                &&& r.expired_error_cleared((now + ERROR_DISPLAY_MS) as u64).error_text is None
            }
        },
        s.initial_notice is None ==> s.notice_presented(now) == s,
{
}

/// Law: reading the fans. A reading replaces the fans and changes nothing
/// else; a failed reading keeps the fans, drops the temperature sensors and
/// puts its error on screen.
pub proof fn law_fan_read_meaning<R, T>(
    s: ModelState<R, T>,
    reading: Result<Seq<Fan<R>>, String>,
    now: u64,
)
    requires
        valid_now(now),
    ensures
        (reading matches Ok(fans) ==> s.fans_applied(reading, now) == (ModelState { fans, ..s })),
        (reading matches Err(e) ==> {
            let r = s.fans_applied(reading, now);
            &&& r.fans == s.fans
            &&& r.temperature_sensors.len() == 0
            &&& r.error_text matches Some(t) && t@ == e@
            &&& r.selected_fan_id == s.selected_fan_id
            &&& r.holding_manual_override == s.holding_manual_override
        }),
{
}

/// Law: the check before a round changes nothing while the round's action
/// is the latest one; otherwise it only stops showing attempts.
pub proof fn law_round_check_meaning<R, T>(s: ModelState<R, T>, token: u64)
    ensures
        s.control_action_token == token ==> s.round_checked(token) == s,
        s.control_action_token != token ==> s.round_checked(token) == (ModelState {
            is_sending_control_attempts: false,
            control_attempt_target_mode: None,
            ..s
        }),
{
}

/// Law: a new control action stops showing the attempts of earlier ones,
/// and its token differs from every earlier token unless the tokens have
/// run out; tokens never go back.
pub proof fn law_new_action_supersedes<R, T>(s: ModelState<R, T>)
    ensures
        !s.action_started().is_sending_control_attempts,
        s.action_started().control_attempt_target_mode is None,
        s.action_started().control_action_token >= s.control_action_token,
        s.control_action_token < u64::MAX ==> s.action_started().control_action_token
            > s.control_action_token,
{
}

/// Law: the controlled fans are fans that are there; with all fans
/// controlled, every fan is controlled once, in order; with one fan
/// selected, at most that fan is controlled, and it is controlled exactly
/// when it is there.
pub proof fn law_control_targets<R, T>(s: ModelState<R, T>)
    ensures
        forall|k: int|
            0 <= k < s.control_targets().len() ==> 0 <= #[trigger] s.control_targets()[k]
                < s.fans.len(),
        s.controls_all_fans() ==> s.control_targets().len() == s.fans.len() && forall|k: int|
            0 <= k < s.fans.len() ==> #[trigger] s.control_targets()[k] == k,
        !s.controls_all_fans() ==> s.control_targets().len() <= 1,
        !s.controls_all_fans() ==> (s.control_targets().len() == 1 <==> crate::selection::has_fan_id(
            s.fans,
            s.selected_fan_id,
        )),
        !s.controls_all_fans() && s.control_targets().len() == 1 ==> s.fans[s.control_targets()[
            0]].id == s.selected_fan_id,
{
    law_first_index_found(s.fans, s.selected_fan_id);
}

/// Law: however a control action ends, its attempts are no longer shown;
/// a refused action shows its last refusal, and changes nothing more when
/// there was none.
pub proof fn law_control_action_outcomes<R, T>(
    s: ModelState<R, T>,
    last_error: Option<String>,
    now: u64,
)
    requires
        valid_now(now),
    ensures
        !s.progress_ended().is_sending_control_attempts,
        !s.progress_ended().refusal_noted(last_error, now).is_sending_control_attempts,
        last_error matches Some(e) ==> (s.refusal_noted(last_error, now).error_text matches Some(
            text,
        ) && text@ == e@),
        last_error is None ==> s.refusal_noted(last_error, now) == s,
{
}

} // verus!
