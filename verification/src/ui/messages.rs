use vstd::prelude::*;

verus! {

/// The text of welcome_message.
pub open spec fn welcome_message_text() -> Seq<char> {
    r#"Welcome to DE-Idle!
In this game you will manipulate the resources at your disposal to produce particular patterns in the above plot.
In the "Goals" tab you will see the list of goals you have to complete (they must be completed in order).
We start off with an easy one. To produce a horizontal line in the plot simply change the x-axis to plot Time.
Plotting a constant quantity (wood in this case -- we don't have a way to change the amount of wood we have yet) over time creates a flat line.
Set the x-axis to plot Time to complete the first goal!"#@
}

/// The message shown before any goal is completed.
pub fn welcome_message() -> (r: &'static str)
    ensures
        r@ == welcome_message_text(),
{
    r#"Welcome to DE-Idle!
In this game you will manipulate the resources at your disposal to produce particular patterns in the above plot.
In the "Goals" tab you will see the list of goals you have to complete (they must be completed in order).
We start off with an easy one. To produce a horizontal line in the plot simply change the x-axis to plot Time.
Plotting a constant quantity (wood in this case -- we don't have a way to change the amount of wood we have yet) over time creates a flat line.
Set the x-axis to plot Time to complete the first goal!"#
}

/// The text of vertical_line_preamble.
pub open spec fn vertical_line_preamble_text() -> Seq<char> {
    r#"Nice job!
We can change a horizontal line to a vertical line we simply swap the axes in the plot.
Change the y-axis to plot Time and the x-axis to plot Wood to complete the second goal!"#@
}

/// The message shown once the first goal is completed.
pub fn vertical_line_preamble() -> (r: &'static str)
    ensures
        r@ == vertical_line_preamble_text(),
{
    r#"Nice job!
We can change a horizontal line to a vertical line we simply swap the axes in the plot.
Change the y-axis to plot Time and the x-axis to plot Wood to complete the second goal!"#
}

/// The text of wood_intro.
pub open spec fn wood_intro_text() -> Seq<char> {
    r#"Great! Looks like you have the hang of things. Let's step up the difficulty a bit.
On the Resources tab you now have access to Wood. You can manually chop down trees to obtain Wood.
Can you use this new skill to complete the next goal?"#@
}

/// The message shown once the second goal is completed.
pub fn wood_intro() -> (r: &'static str)
    ensures
        r@ == wood_intro_text(),
{
    r#"Great! Looks like you have the hang of things. Let's step up the difficulty a bit.
On the Resources tab you now have access to Wood. You can manually chop down trees to obtain Wood.
Can you use this new skill to complete the next goal?"#
}

/// The text of miners_intro.
pub open spec fn miners_intro_text() -> Seq<char> {
    r#"Way to step up to the challenge!
Clicking the Chop button was a bit of manual effort, let's see if you can build something that works for you instead of the other way around.
On the Resources tab you have discovered Gold as a new kind of resource.
You can obtain Gold manually by selling Wood, but that's a tiresome way to go about things.
The more automatic approach is to buy a Miner Bot that will dig up gold for you!
Can you use these new resources to accomplish the next goal?"#@
}

/// The message shown once the third goal is completed.
pub fn miners_intro() -> (r: &'static str)
    ensures
        r@ == miners_intro_text(),
{
    r#"Way to step up to the challenge!
Clicking the Chop button was a bit of manual effort, let's see if you can build something that works for you instead of the other way around.
On the Resources tab you have discovered Gold as a new kind of resource.
You can obtain Gold manually by selling Wood, but that's a tiresome way to go about things.
The more automatic approach is to buy a Miner Bot that will dig up gold for you!
Can you use these new resources to accomplish the next goal?"#
}

/// The text of lumberjacks_intro.
pub open spec fn lumberjacks_intro_text() -> Seq<char> {
    r#"You're really on a roll!
Automatically getting Gold is cool, but it would be even better if we could have zero-effort wood too.
On the Resources tab you can now hire Lumberjacks! They can chop wood for you, but only if you have the gold to pay them.
Go ahead and make use of them to complete the next goal."#@
}

/// The message shown once the fourth goal is completed.
pub fn lumberjacks_intro() -> (r: &'static str)
    ensures
        r@ == lumberjacks_intro_text(),
{
    r#"You're really on a roll!
Automatically getting Gold is cool, but it would be even better if we could have zero-effort wood too.
On the Resources tab you can now hire Lumberjacks! They can chop wood for you, but only if you have the gold to pay them.
Go ahead and make use of them to complete the next goal."#
}

/// The text of peak_goal_intro.
pub open spec fn peak_goal_intro_text() -> Seq<char> {
    r#"You're really getting the hang of this! You already have everything you need to complete the next goal as well."#@
}

/// The message shown once the fifth goal is completed.
pub fn peak_goal_intro() -> (r: &'static str)
    ensures
        r@ == peak_goal_intro_text(),
{
    r#"You're really getting the hang of this! You already have everything you need to complete the next goal as well."#
}

/// The text of factories_intro.
pub open spec fn factories_intro_text() -> Seq<char> {
    r#"Amazing! With all this wood we can really start industrializing.
You now have access to energy as a resources as well as two buildings: furnaces and factories.
Take a look at them in the Resources tab and figure out how to accomplish the next goal."#@
}

/// The message shown once the sixth goal is completed.
pub fn factories_intro() -> (r: &'static str)
    ensures
        r@ == factories_intro_text(),
{
    r#"Amazing! With all this wood we can really start industrializing.
You now have access to energy as a resources as well as two buildings: furnaces and factories.
Take a look at them in the Resources tab and figure out how to accomplish the next goal."#
}

/// The text of game_completed.
pub open spec fn game_completed_text() -> Seq<char> {
    r#"Great work! You have completed the game. Thanks for playing!"#@
}

/// The message shown once the last goal is completed.
pub fn game_completed() -> (r: &'static str)
    ensures
        r@ == game_completed_text(),
{
    r#"Great work! You have completed the game. Thanks for playing!"#
}

/// The messages that completing goals reveals, in the order of their rows on screen:
/// completing the goal numbered `k` (from 0) reveals the row `len - 1 - k`.
pub fn goal_messages() -> (r: Vec<&'static str>)
    ensures
        r@.len() == 7,
        r@[0]@ == game_completed_text(),
        r@[1]@ == factories_intro_text(),
        r@[2]@ == peak_goal_intro_text(),
        r@[3]@ == lumberjacks_intro_text(),
        r@[4]@ == miners_intro_text(),
        r@[5]@ == wood_intro_text(),
        r@[6]@ == vertical_line_preamble_text(),
{
    let mut r: Vec<&'static str> = Vec::new();
    r.push(game_completed());
    r.push(factories_intro());
    r.push(peak_goal_intro());
    r.push(lumberjacks_intro());
    r.push(miners_intro());
    r.push(wood_intro());
    r.push(vertical_line_preamble());
    r
}

/// The number of goal checkers after the first; the game ends when that many goals
/// past the first are done.
pub const MAX_GOALS: usize = 6;

/// The resource rows (in the order of the resources tab) that completing the goal
/// numbered `completed` (from 0) reveals.
pub open spec fn revealed_resources(completed: usize) -> Seq<usize> {
    if completed == 1 {
        seq![0]
    } else if completed == 2 {
        seq![1, 3]
    } else if completed == 3 {
        seq![4]
    } else if completed == 5 {
        seq![2, 7, 8]
    } else {
        seq![]
    }
}

/// The resource rows that completing the goal numbered `completed_goals` reveals.
pub fn resources_to_reveal(completed_goals: usize) -> (r: Vec<usize>)
    ensures
        r@ == revealed_resources(completed_goals),
{
    let mut r: Vec<usize> = Vec::new();
    if completed_goals == 1 {
        r.push(0);
    } else if completed_goals == 2 {
        r.push(1);
        r.push(3);
    } else if completed_goals == 3 {
        r.push(4);
    } else if completed_goals == 5 {
        r.push(2);
        r.push(7);
        r.push(8);
    }
    assert(r@ =~= revealed_resources(completed_goals));
    r
}

/// What the screen does when a goal is completed.
pub struct GoalCompletion {
    /// The goal whose checkbox gets ticked.
    pub checkbox: usize,
    /// The message row that becomes visible.
    pub message_row: usize,
    /// The resource rows that become visible.
    pub reveal: Vec<usize>,
    /// The goal checker to hand to the plot next, if any goal is left.
    pub next_goal: Option<usize>,
}

/// How far the player has come through the goals.
pub struct GoalProgress {
    completed_goals: usize,
}

impl GoalProgress {
    #[verifier::type_invariant]
    spec fn inv(self) -> bool {
        self.completed_goals <= MAX_GOALS
    }

    /// The number of goals completed so far (the last one is never counted).
    pub closed spec fn completed(self) -> nat {
        self.completed_goals as nat
    }

    /// No goal completed yet.
    pub fn new() -> (r: Self)
        ensures
            r.completed() == 0,
    {
        GoalProgress { completed_goals: 0 }
    }

    /// The number of goals completed so far, which never exceeds `MAX_GOALS`.
    pub fn completed_goals(&self) -> (r: usize)
        ensures
            r == self.completed(),
            r <= MAX_GOALS,
    {
        proof {
            use_type_invariant(self);
        }
        self.completed_goals
    }

    /// Records that the current goal is done, with `message_rows` rows of messages on
    /// screen, and says what the screen should show: the current goal's checkbox, the
    /// message row counted from the end, the resources it unlocks, and the next goal
    /// unless the last one is reached.
    pub fn complete_goal(&mut self, message_rows: usize) -> (r: GoalCompletion)
        requires
            old(self).completed() < message_rows,
        ensures
            r.checkbox == old(self).completed(),
            r.message_row == message_rows - 1 - old(self).completed(),
            r.reveal@ == revealed_resources(old(self).completed() as usize),
            old(self).completed() < MAX_GOALS ==> final(self).completed() == old(self).completed()
                + 1 && r.next_goal == Some((old(self).completed() + 1) as usize),
            old(self).completed() >= MAX_GOALS ==> final(self).completed() == old(self).completed()
                && r.next_goal is None,
    {
        proof {
            use_type_invariant(&*self);
        }
        let completed = self.completed_goals;
        let reveal = resources_to_reveal(completed);
        let next_goal = if completed < MAX_GOALS {
            self.completed_goals = completed + 1;
            Some(completed + 1)
        } else {
            None
        };
        GoalCompletion {
            checkbox: completed,
            message_row: message_rows - 1 - completed,
            reveal,
            next_goal,
        }
    }
}

} // verus!
