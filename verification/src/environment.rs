use vstd::prelude::*;

verus! {

/// Width of the observation returned once an episode is over.
pub const OBSERVATION_WIDTH: usize = 8;

/// Advances an episode over `n_rows` rows of data by one step: the new step
/// is the next one, and the episode is over once it reaches the last row.
pub fn advance_step(current_step: usize, n_rows: usize) -> (r: (usize, bool))
    requires
        n_rows >= 1,
        current_step < usize::MAX,
    ensures
        r.0 == current_step + 1,
        r.1 == (r.0 >= n_rows - 1),
        !r.1 ==> r.0 < n_rows - 1,
{
    let next = current_step + 1;
    (next, next >= n_rows - 1)
}

/// The observation after a step: a row of `OBSERVATION_WIDTH` copies of
/// `fill` once the episode is over, else a copy of the row at `step`.
pub fn next_observation<T: Copy>(data: &Vec<Vec<T>>, step: usize, done: bool, fill: T) -> (obs: Vec<T>)
    requires
        !done ==> step < data.len(),
    ensures
        done ==> obs@ == Seq::new(OBSERVATION_WIDTH as nat, |_i: int| fill),
        !done ==> obs@ == data@[step as int]@,
{
    let mut obs: Vec<T> = Vec::new();
    if done {
        let mut i: usize = 0;
        while i < OBSERVATION_WIDTH
            invariant
                i <= OBSERVATION_WIDTH,
                obs@ == Seq::new(i as nat, |_i: int| fill),
            decreases OBSERVATION_WIDTH - i,
        {
            obs.push(fill);
            i = i + 1;
            assert(obs@ =~= Seq::new(i as nat, |_i: int| fill));
        }
    } else {
        let row = &data[step];
        let mut i: usize = 0;
        while i < row.len()
            invariant
                i <= row.len(),
                obs@ == row@.subrange(0, i as int),
            decreases row.len() - i,
        {
            obs.push(row[i]);
            i = i + 1;
            assert(obs@ =~= row@.subrange(0, i as int));
        }
        assert(row@.subrange(0, row.len() as int) =~= row@);
    }
    obs
}

} // verus!
