use vstd::prelude::*;

verus! {

/// Number of dashboard tabs; `tab_index` always stays below this bound.
pub const TAB_COUNT: usize = 3;

/// Statistics snapshot written by an external data source.
///
/// The dashboard's numeric readings are 64-bit floating-point values that the
/// core never interprets; it only stores them and reports whether each one is
/// present. Each reading is therefore carried as the raw bit pattern of the
/// value (`f64::to_bits` / `f64::from_bits` at the boundary), and an absent
/// reading renders as a "pending" indicator.
#[derive(Debug, Clone, Copy)]
pub struct Stats {
    pub solusd: Option<u64>,
    pub balance: Option<u64>,
}

/// Bit pattern of the fixed demo price reading that `Stats::new` reports.
pub const SOLUSD_DEMO_BITS: u64 = 0x4045000000000000;

impl Stats {
    /// Demo snapshot: the price reading present, the balance still pending.
    pub fn new() -> (stats: Self)
        ensures
            stats.solusd == Some(SOLUSD_DEMO_BITS),
            stats.balance.is_none(),
    {
        Self { solusd: Some(SOLUSD_DEMO_BITS), balance: None }
    }
}

/// Row of the statistics pane that shows the price reading.
pub const SOLUSD_INDEX: usize = 0;

/// Row of the statistics pane that shows the balance reading.
pub const BALANCE_INDEX: usize = 1;

impl Default for Stats {
    /// At process start both readings are still pending.
    fn default() -> (stats: Stats)
        ensures
            stats.solusd.is_none(),
            stats.balance.is_none(),
    {
        Stats { solusd: None, balance: None }
    }
}

/// Which class of operations the event dispatcher currently permits.
#[derive(Debug, Clone, PartialEq, Eq, Copy, Structural)]
pub enum InputMode {
    Normal,
    Editing,
}

/// Last-rendered screen position of the input box, reported by the renderer.
#[derive(Debug, Clone, Copy)]
pub struct InputContext {
    pub box_pos: (u16, u16),
}

/// Single-line text editor: a character buffer, a cursor, an editing-mode
/// flag, and the append-only history of submitted lines.
///
/// The buffer is a sequence of Unicode scalar values, never raw bytes, so a
/// mutation can never split an encoded character. The cursor is a character
/// offset and stays within `0 ..= buffer length` after every operation.
#[derive(Debug)]
pub struct UserInput {
    pub input: Vec<char>,
    pub box_pos: (u16, u16),
    pub cursor_position: usize,
    pub input_mode: InputMode,
    pub messages: Vec<Vec<char>>,
}

impl UserInput {
    /// The editor's invariant: the cursor never leaves the buffer.
    pub open spec fn wf(&self) -> bool {
        self.cursor_position <= self.input@.len()
    }

    /// The submission history as a sequence of character sequences, oldest
    /// first.
    pub open spec fn history(&self) -> Seq<Seq<char>> {
        self.messages.deep_view()
    }

    /// The editor as it looks at process start: empty, in Normal mode.
    pub open spec fn is_initial(&self) -> bool {
        &&& self.input@ == Seq::<char>::empty()
        &&& self.cursor_position == 0
        &&& self.input_mode == InputMode::Normal
        &&& self.messages@ == Seq::<Vec<char>>::empty()
        &&& self.box_pos == ((0u16, 0u16))
    }

    /// Record where the renderer last drew the input box.
    pub fn set_box_pos(&mut self, box_pos: (u16, u16))
        ensures
            final(self).box_pos == box_pos,
            final(self).input == old(self).input,
            final(self).cursor_position == old(self).cursor_position,
            final(self).input_mode == old(self).input_mode,
            final(self).messages == old(self).messages,
    {
        self.box_pos = box_pos;
    }

    /// Switch between Normal and Editing; no side effect beyond the flag.
    pub fn set_mode(&mut self, mode: InputMode)
        ensures
            final(self).input_mode == mode,
            final(self).input == old(self).input,
            final(self).cursor_position == old(self).cursor_position,
            final(self).box_pos == old(self).box_pos,
            final(self).messages == old(self).messages,
    {
        self.input_mode = mode;
    }
}

impl Default for UserInput {
    /// An empty editor in Normal mode with no history.
    fn default() -> (input: UserInput)
        ensures
            input.is_initial(),
            input.wf(),
    {
        UserInput {
            input: Vec::new(),
            input_mode: InputMode::Normal,
            messages: Vec::new(),
            cursor_position: 0,
            box_pos: (0, 0),
        }
    }
}

/// Everything the dashboard shows: navigation, the editor, and statistics.
#[derive(Debug)]
pub struct AppContext {
    pub tab_index: usize,
    pub row_index: usize,
    pub input: UserInput,
    pub stats: Stats,
}

impl AppContext {
    /// The context as it looks at process start.
    pub open spec fn is_initial(&self) -> bool {
        &&& self.tab_index == 0
        &&& self.row_index == 0
        &&& self.input.is_initial()
        &&& self.stats.solusd.is_none()
        &&& self.stats.balance.is_none()
    }
}

impl Default for AppContext {
    /// First tab selected, first row selected, empty editor, readings pending.
    fn default() -> (context: AppContext)
        ensures
            context.is_initial(),
    {
        AppContext {
            tab_index: 0,
            row_index: 0,
            input: UserInput::default(),
            stats: Stats::default(),
        }
    }
}

/// Saturating increment: at the top of the `u8` range the value stays put.
pub open spec fn spec_increment(counter: u8) -> u8 {
    if counter == u8::MAX {
        counter
    } else {
        (counter + 1) as u8
    }
}

/// Saturating decrement: at zero the value stays put.
pub open spec fn spec_decrement(counter: u8) -> u8 {
    if counter == 0 {
        counter
    } else {
        (counter - 1) as u8
    }
}

/// The tab after `tab`, wrapping from the last tab back to the first.
pub open spec fn spec_next_tab(tab: int) -> int {
    (tab + 1) % (TAB_COUNT as int)
}

/// The tab before `tab`, wrapping from the first tab to the last. Computed by
/// adding `TAB_COUNT` before subtracting, so it never underflows at tab 0.
pub open spec fn spec_back_tab(tab: int) -> int {
    (tab + TAB_COUNT - 1) % (TAB_COUNT as int)
}

/// Cursor one step to the left, clamped to the buffer: moving left from the
/// start of the buffer stays at 0.
pub open spec fn spec_move_left(cursor: int, len: int) -> int {
    if cursor == 0 {
        0
    } else if cursor - 1 <= len {
        cursor - 1
    } else {
        len
    }
}

/// Cursor one step to the right, clamped to the buffer: moving right from
/// the end of the buffer stays at the end.
pub open spec fn spec_move_right(cursor: int, len: int) -> int {
    if cursor + 1 <= len {
        cursor + 1
    } else {
        len
    }
}

/// Buffer and cursor after inserting `c` at character position `cursor`:
/// the characters around the insertion point are kept, and the cursor moves
/// one step right, past the new character.
pub open spec fn spec_insert_char(buffer: Seq<char>, cursor: int, c: char) -> (Seq<char>, int) {
    (buffer.insert(cursor, c), cursor + 1)
}

/// Buffer and cursor after erasing the character left of the cursor: at
/// cursor 0 there is nothing to the left and the state is unchanged;
/// otherwise the character at position `cursor - 1` is removed from the
/// character sequence and the cursor moves one step left.
pub open spec fn spec_delete_char(buffer: Seq<char>, cursor: int) -> (Seq<char>, int) {
    if cursor == 0 {
        (buffer, 0)
    } else {
        (buffer.remove(cursor - 1), cursor - 1)
    }
}

/// The application model; the single mutation surface the dispatcher calls.
#[derive(Debug)]
pub struct App {
    /// False signals the host loop to terminate; the dispatcher is then done.
    pub running: bool,
    /// Demo bounded counter, saturating at both ends of the `u8` range.
    pub counter: u8,
    pub context: AppContext,
}

impl App {
    /// The whole model's invariant: the tab index is a real tab and the
    /// editor's cursor is inside its buffer.
    pub open spec fn inv(&self) -> bool {
        &&& self.context.tab_index < TAB_COUNT
        &&& self.context.input.wf()
    }

    /// The state at process start, before any event has been applied.
    pub open spec fn is_initial(&self) -> bool {
        &&& self.running
        &&& self.counter == 0
        &&& self.context.is_initial()
    }

    /// Runtime probe of [`App::inv`], for unverified callers that must check
    /// the preconditions of the mutating operations before calling them.
    pub fn is_well_formed(&self) -> (well_formed: bool)
        ensures
            well_formed == self.inv(),
    {
        self.context.tab_index < TAB_COUNT
            && self.context.input.cursor_position <= self.context.input.input.len()
    }
}

impl Default for App {
    /// The state at process start: running, counter zero, first tab, empty
    /// editor in Normal mode, statistics pending.
    fn default() -> (app: App)
        ensures
            app.is_initial(),
            app.inv(),
    {
        App { running: true, counter: 0, context: AppContext::default() }
    }
}

impl App {
    /// Constructs a new instance of [`App`].
    pub fn new() -> (app: Self)
        ensures
            app.is_initial(),
            app.inv(),
    {
        Self::default()
    }

    /// Handles the tick event of the terminal; the model does not change
    /// with time, so there is nothing to do.
    pub fn tick(&self) {
    }

    /// Set running to false to quit the application.
    pub fn quit(&mut self)
        ensures
            !final(self).running,
            final(self).counter == old(self).counter,
            final(self).context == old(self).context,
    {
        self.running = false;
    }

    /// Add one to the counter; at the top of the range this is a no-op.
    pub fn increment_counter(&mut self)
        ensures
            final(self).counter == spec_increment(old(self).counter),
            final(self).running == old(self).running,
            final(self).context == old(self).context,
    {
        if let Some(res) = self.counter.checked_add(1) {
            self.counter = res;
        }
    }

    /// Subtract one from the counter; at zero this is a no-op.
    pub fn decrement_counter(&mut self)
        ensures
            final(self).counter == spec_decrement(old(self).counter),
            final(self).running == old(self).running,
            final(self).context == old(self).context,
    {
        if let Some(res) = self.counter.checked_sub(1) {
            self.counter = res;
        }
    }

    /// Advance to the next tab, wrapping around, and select its first row.
    pub fn next_tab(&mut self)
        requires
            old(self).inv(),
        ensures
            final(self).context.tab_index == spec_next_tab(old(self).context.tab_index as int),
            final(self).context.tab_index < TAB_COUNT,
            final(self).context.row_index == 0,
            final(self).context.input == old(self).context.input,
            final(self).context.stats == old(self).context.stats,
            final(self).running == old(self).running,
            final(self).counter == old(self).counter,
            final(self).inv(),
    {
        let tab_index = self.context.tab_index.saturating_add(1) % TAB_COUNT;
        self.context.tab_index = tab_index;
        self.context.row_index = 0;
    }

    /// Step back to the previous tab, wrapping from the first tab to the
    /// last, and select its first row. The index is raised by `TAB_COUNT`
    /// before the subtraction, so it cannot underflow at tab 0.
    pub fn back_tab(&mut self)
        requires
            old(self).inv(),
        ensures
            final(self).context.tab_index == spec_back_tab(old(self).context.tab_index as int),
            final(self).context.tab_index < TAB_COUNT,
            final(self).context.row_index == 0,
            final(self).context.input == old(self).context.input,
            final(self).context.stats == old(self).context.stats,
            final(self).running == old(self).running,
            final(self).counter == old(self).counter,
            final(self).inv(),
    {
        let tab_index = self.context.tab_index + TAB_COUNT;
        self.context.tab_index = tab_index.saturating_sub(1) % TAB_COUNT;
        self.context.row_index = 0;
    }
}

/// Everything an editor operation leaves alone: the running flag, the
/// counter, the navigation state, the statistics, the editing mode and the
/// input box position.
pub open spec fn same_outside_editor(pre: App, post: App) -> bool {
    &&& post.running == pre.running
    &&& post.counter == pre.counter
    &&& post.context.tab_index == pre.context.tab_index
    &&& post.context.row_index == pre.context.row_index
    &&& post.context.stats == pre.context.stats
    &&& post.context.input.input_mode == pre.context.input.input_mode
    &&& post.context.input.box_pos == pre.context.input.box_pos
}

/// User input methods: the editor operations the dispatcher invokes while
/// the user types.
impl App {
    /// Move the cursor one character to the left, clamped to the buffer.
    pub fn move_cursor_left(&mut self)
        ensures
            final(self).context.input.cursor_position == spec_move_left(
                old(self).context.input.cursor_position as int,
                old(self).context.input.input@.len() as int,
            ),
            final(self).context.input.wf(),
            final(self).context.input.input == old(self).context.input.input,
            final(self).context.input.messages == old(self).context.input.messages,
            same_outside_editor(*old(self), *final(self)),
            old(self).inv() ==> final(self).inv(),
    {
        let cursor_moved_left = self.context.input.cursor_position.saturating_sub(1);
        let clamped = self.clamp_cursor(cursor_moved_left);
        self.context.input.cursor_position = clamped;
    }

    /// Move the cursor one character to the right, clamped to the buffer.
    pub fn move_cursor_right(&mut self)
        ensures
            final(self).context.input.cursor_position == spec_move_right(
                old(self).context.input.cursor_position as int,
                old(self).context.input.input@.len() as int,
            ),
            final(self).context.input.wf(),
            final(self).context.input.input == old(self).context.input.input,
            final(self).context.input.messages == old(self).context.input.messages,
            same_outside_editor(*old(self), *final(self)),
            old(self).inv() ==> final(self).inv(),
    {
        let cursor_moved_right = self.context.input.cursor_position.saturating_add(1);
        let clamped = self.clamp_cursor(cursor_moved_right);
        self.context.input.cursor_position = clamped;
    }

    /// Insert `new_char` at the cursor's character position and step the
    /// cursor past it. Every character before and after the insertion point
    /// is preserved.
    pub fn enter_char(&mut self, new_char: char)
        requires
            old(self).inv(),
        ensures
            final(self).context.input.input@ == spec_insert_char(
                old(self).context.input.input@,
                old(self).context.input.cursor_position as int,
                new_char,
            ).0,
            final(self).context.input.cursor_position as int == spec_insert_char(
                old(self).context.input.input@,
                old(self).context.input.cursor_position as int,
                new_char,
            ).1,
            final(self).context.input.messages == old(self).context.input.messages,
            same_outside_editor(*old(self), *final(self)),
            final(self).inv(),
    {
        let cursor = self.context.input.cursor_position;
        self.context.input.input.insert(cursor, new_char);
        self.move_cursor_right();
    }

    /// Erase the character immediately left of the cursor and step the
    /// cursor back; at cursor 0 there is nothing to erase and the editor is
    /// left untouched. The buffer is rebuilt from the character sequence
    /// (never from raw storage units), so the deletion can never split an
    /// encoded character.
    pub fn delete_char(&mut self)
        requires
            old(self).inv(),
        ensures
            final(self).context.input.input@ == spec_delete_char(
                old(self).context.input.input@,
                old(self).context.input.cursor_position as int,
            ).0,
            final(self).context.input.cursor_position as int == spec_delete_char(
                old(self).context.input.input@,
                old(self).context.input.cursor_position as int,
            ).1,
            final(self).context.input.messages == old(self).context.input.messages,
            same_outside_editor(*old(self), *final(self)),
            final(self).inv(),
    {
        let is_not_cursor_leftmost = self.context.input.cursor_position != 0;
        if is_not_cursor_leftmost {
            let current_index = self.context.input.cursor_position;
            let from_left_to_current_index = current_index - 1;

            // Remove the character at the position left of the cursor from
            // the decoded character sequence.
            self.context.input.input.remove(from_left_to_current_index);
            self.move_cursor_left();
        }
    }

    /// Clamp a prospective cursor position to the buffer.
    fn clamp_cursor(&self, new_cursor_pos: usize) -> (clamped: usize)
        ensures
            clamped as int == if new_cursor_pos as int <= self.context.input.input@.len() as int {
                new_cursor_pos as int
            } else {
                self.context.input.input@.len() as int
            },
            self.context.input.input@.len() <= usize::MAX,
    {
        let len = self.context.input.input.len();
        if new_cursor_pos <= len {
            new_cursor_pos
        } else {
            len
        }
    }

    /// Put the cursor back at the start of the buffer.
    fn reset_cursor(&mut self)
        ensures
            final(self).context.input.cursor_position == 0,
            final(self).context.input.input == old(self).context.input.input,
            final(self).context.input.messages == old(self).context.input.messages,
            same_outside_editor(*old(self), *final(self)),
    {
        self.context.input.cursor_position = 0;
    }

    /// Append the buffer's exact contents to the history and reset the
    /// editor: afterwards the buffer is empty and the cursor is at 0. This
    /// is the only operation that touches the history, and it only ever
    /// appends.
    pub fn submit_message(&mut self)
        ensures
            final(self).context.input.history() == old(self).context.input.history().push(
                old(self).context.input.input@,
            ),
            final(self).context.input.input@ == Seq::<char>::empty(),
            final(self).context.input.cursor_position == 0,
            final(self).context.input.wf(),
            same_outside_editor(*old(self), *final(self)),
            old(self).inv() ==> final(self).inv(),
    {
        let message = self.context.input.input.clone();
        proof {
            assert(message@ =~= self.context.input.input@);
        }
        self.context.input.messages.push(message);
        self.context.input.input.clear();
        self.reset_cursor();
        proof {
            assert(self.context.input.history() =~~= old(self).context.input.history().push(
                old(self).context.input.input@,
            ));
        }
    }
}

/// Law: both tab transitions send every real tab to a real tab, so no
/// sequence of them, however long, can drive the index out of
/// `0 .. TAB_COUNT`.
pub proof fn lemma_tab_stays_in_range(tab: int)
    requires
        0 <= tab < TAB_COUNT,
    ensures
        0 <= spec_next_tab(tab) < TAB_COUNT,
        0 <= spec_back_tab(tab) < TAB_COUNT,
{
}

/// Law: stepping the counter up and then down restores it, except at the
/// boundaries, where the step that would leave the range is a no-op: at the
/// top of the range incrementing changes nothing, and at zero decrementing
/// changes nothing.
pub proof fn lemma_counter_round_trip(counter: u8)
    ensures
        counter < u8::MAX ==> spec_decrement(spec_increment(counter)) == counter,
        spec_increment(u8::MAX) == u8::MAX,
        spec_decrement(0u8) == 0u8,
{
}

/// Law: inserting a character and then erasing it restores the buffer to its
/// prior content and the cursor to its prior position, for any character and
/// any cursor position inside the buffer.
pub proof fn lemma_insert_delete_round_trip(buffer: Seq<char>, cursor: int, c: char)
    requires
        0 <= cursor <= buffer.len(),
    ensures
        spec_delete_char(
            spec_insert_char(buffer, cursor, c).0,
            spec_insert_char(buffer, cursor, c).1,
        ) == ((buffer, cursor)),
{
    assert(buffer.insert(cursor, c).remove(cursor) =~= buffer);
}

/// The application model as pure mathematics: every field of [`App`] that an
/// event can read or change, with sequences standing in for the vectors.
#[verifier::ext_equal]
pub ghost struct AppView {
    pub running: bool,
    pub counter: u8,
    pub tab_index: int,
    pub row_index: int,
    pub buffer: Seq<char>,
    pub cursor: int,
    pub mode: InputMode,
    pub history: Seq<Seq<char>>,
    pub box_pos: (u16, u16),
    pub solusd: Option<u64>,
    pub balance: Option<u64>,
}

impl View for App {
    type V = AppView;

    open spec fn view(&self) -> AppView {
        AppView {
            running: self.running,
            counter: self.counter,
            tab_index: self.context.tab_index as int,
            row_index: self.context.row_index as int,
            buffer: self.context.input.input@,
            cursor: self.context.input.cursor_position as int,
            mode: self.context.input.input_mode,
            history: self.context.input.history(),
            box_pos: self.context.input.box_pos,
            solusd: self.context.stats.solusd,
            balance: self.context.stats.balance,
        }
    }
}

} // verus!
