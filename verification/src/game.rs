//! The game's state machine: how a guess transitions the state, and the
//! invariants tying guessed letters, remaining lives and completion together.

use vstd::prelude::*;

verus! {

/// Number of incorrect guesses a player may make before losing.
pub const STARTING_LIVES: i32 = 6;

/// The outcome of submitting one guess.
#[derive(Clone, Copy, Debug, PartialEq, Eq, Structural)]
pub enum GuessOutcome {
    /// The letter had been submitted before; nothing changed.
    AlreadyGuessed,
    /// The letter occurs in the secret word.
    Correct,
    /// The letter occurs in the secret word, and it was the last one missing:
    /// the game is won.
    CorrectAndWon,
    /// The letter does not occur in the secret word; one life was spent.
    Incorrect,
    /// The letter does not occur in the secret word, and it spent the last
    /// life: the game is lost.
    IncorrectAndLost,
}

/// Mathematical model of a game: the secret word as a sequence of characters,
/// the guessed letters as a set, the lives as an unbounded integer, and the
/// completion flag.
#[verifier::ext_equal]
pub struct GameModel {
    pub secret: Seq<char>,
    pub guessed: Set<char>,
    pub lives: int,
    pub completed: bool,
}

impl GameModel {
    /// The distinct letters of the secret word.
    pub open spec fn secret_letters(self) -> Set<char> {
        self.secret.to_set()
    }

    /// The game is won once every letter of the secret word has been guessed.
    pub open spec fn won(self) -> bool {
        self.secret_letters() <= self.guessed
    }

    /// The game is lost once the lives fall below one.
    pub open spec fn lost(self) -> bool {
        self.lives < 1
    }

    /// The state invariant: the secret word is non-empty, the lives stay
    /// between zero and the starting budget, and the completion flag is set
    /// exactly when the game is won or lost.
    pub open spec fn wf(self) -> bool {
        &&& self.secret.len() > 0
        &&& 0 <= self.lives <= STARTING_LIVES as int
        &&& self.completed <==> (self.won() || self.lost())
    }
}

/// The outcome that submitting `c` in state `m` reports.
pub open spec fn guess_outcome(m: GameModel, c: char) -> GuessOutcome {
    if m.guessed.contains(c) {
        GuessOutcome::AlreadyGuessed
    } else if m.secret.contains(c) {
        if m.secret.to_set() <= m.guessed.insert(c) {
            GuessOutcome::CorrectAndWon
        } else {
            GuessOutcome::Correct
        }
    } else {
        if m.lives - 1 < 1 {
            GuessOutcome::IncorrectAndLost
        } else {
            GuessOutcome::Incorrect
        }
    }
}

/// The state that submitting `c` in state `m` leads to: a repeated guess
/// changes nothing; a correct guess records the letter and may win; an
/// incorrect guess records the letter, spends a life and may lose.
pub open spec fn guess_step(m: GameModel, c: char) -> GameModel {
    if m.guessed.contains(c) {
        m
    } else if m.secret.contains(c) {
        GameModel {
            secret: m.secret,
            guessed: m.guessed.insert(c),
            lives: m.lives,
            completed: m.secret.to_set() <= m.guessed.insert(c),
        }
    } else {
        GameModel {
            secret: m.secret,
            guessed: m.guessed.insert(c),
            lives: m.lives - 1,
            completed: m.lives - 1 < 1,
        }
    }
}

/// Law: the set of guessed letters only grows. Whatever letter is submitted,
/// every letter guessed before the transition is still guessed after it.
pub proof fn lemma_guessed_letters_monotone(m: GameModel, c: char)
    ensures
        m.guessed <= guess_step(m, c).guessed,
{
}

/// Law: submitting a letter twice is a no-op the second time. After `c` has
/// been submitted once, submitting it again reports `AlreadyGuessed` and
/// leaves the whole state — guessed letters and lives included — unchanged.
pub proof fn lemma_repeated_guess_is_noop(m: GameModel, c: char)
    ensures
        guess_outcome(guess_step(m, c), c) == GuessOutcome::AlreadyGuessed,
        guess_step(guess_step(m, c), c) == guess_step(m, c),
{
}

/// Law: while a second letter of the secret word is still missing, a correct
/// guess does not complete the game.
pub proof fn lemma_guess_short_of_last_letter(m: GameModel, c: char, missing: char)
    requires
        m.wf(),
        !m.completed,
        m.secret.contains(c),
        m.secret.contains(missing),
        !m.guessed.contains(missing),
        missing != c,
    ensures
        !guess_step(m, c).completed,
        guess_outcome(m, c) != GuessOutcome::CorrectAndWon,
{
    assert(m.secret.to_set().contains(missing));
    assert(!m.guessed.insert(c).contains(missing));
}

/// Law: guessing the last missing letter of the secret word completes the
/// game with a win.
pub proof fn lemma_final_letter_wins(m: GameModel, c: char)
    requires
        m.wf(),
        !m.completed,
        m.secret.contains(c),
        !m.guessed.contains(c),
        forall|d: char| m.secret.contains(d) && d != c ==> m.guessed.contains(d),
    ensures
        guess_step(m, c).completed,
        guess_step(m, c).won(),
        guess_outcome(m, c) == GuessOutcome::CorrectAndWon,
{
    assert forall|x: char| m.secret.to_set().contains(x) implies m.guessed.insert(c).contains(
        x,
    ) by {
        assert(m.secret.contains(x));
    }
}

/// Law: once the game is won, the masked rendering hides nothing — it equals
/// the secret word itself.
pub proof fn lemma_won_renders_full_word(m: GameModel)
    requires
        m.won(),
    ensures
        masked_render(m) == m.secret,
{
    assert forall|i: int| 0 <= i < m.secret.len() implies masked_render(m)[i] == m.secret[i] by {
        assert(m.secret.contains(m.secret[i]));
        assert(m.secret.to_set().contains(m.secret[i]));
    }
    assert(masked_render(m) =~= m.secret);
}

/// One round of word-guessing: the secret word, the letters guessed so far,
/// the remaining lives, and whether the game has ended.
pub struct Game {
    secret_word: Vec<char>,
    guesses: Vec<char>,
    lives: i32,
    is_completed: bool,
}

impl View for Game {
    type V = GameModel;

    closed spec fn view(&self) -> GameModel {
        GameModel {
            secret: self.secret_word@,
            guessed: self.guesses@.to_set(),
            lives: self.lives as int,
            completed: self.is_completed,
        }
    }
}

impl Game {
    /// Well-formedness: the model invariant holds of the game's view.
    pub open spec fn wf(self) -> bool {
        self@.wf()
    }

    /// Starts a fresh round with the generated secret word, the full budget
    /// of lives and no guesses.
    pub fn new() -> (game: Game)
        ensures
            game.wf(),
            game@.secret == seq!['h', 'e', 'l', 'l', 'o'],
            game@.guessed == Set::<char>::empty(),
            game@.lives == STARTING_LIVES as int,
            !game@.completed,
    {
        Game::from_secret_word(generate_secret_word())
    }

    /// Starts a fresh round with the given non-empty secret word.
    pub fn from_secret_word(word: Vec<char>) -> (game: Game)
        requires
            word@.len() > 0,
        ensures
            game.wf(),
            game@.secret == word@,
            game@.guessed == Set::<char>::empty(),
            game@.lives == STARTING_LIVES as int,
            !game@.completed,
    {
        let game = Game {
            secret_word: word,
            guesses: Vec::new(),
            lives: STARTING_LIVES,
            is_completed: false,
        };
        proof {
            assert(game.guesses@.to_set() =~= Set::<char>::empty());
            assert(game@.secret.contains(game@.secret[0]));
            assert(game@.secret.to_set().contains(game@.secret[0]));
            assert(!game@.won());
        }
        game
    }

    /// Submits one guess and applies it: a repeated letter is reported and
    /// changes nothing; a new letter is recorded, and either confirms part of
    /// the secret word (possibly winning the game) or spends one life
    /// (possibly losing it). The caller must not submit a guess once the game
    /// has completed.
    pub fn evaluate_and_apply_guess(&mut self, letter: char) -> (outcome: GuessOutcome)
        requires
            old(self).wf(),
            !old(self)@.completed,
        ensures
            final(self).wf(),
            final(self)@ == guess_step(old(self)@, letter),
            outcome == guess_outcome(old(self)@, letter),
    {
        if contains_char(&self.guesses, letter) {
            GuessOutcome::AlreadyGuessed
        } else if contains_char(&self.secret_word, letter) {
            proof {
                self.guesses@.lemma_push_to_set_commute(letter);
            }
            self.guesses.push(letter);
            let won = all_letters_guessed(&self.secret_word, &self.guesses);
            if won {
                self.is_completed = true;
                proof {
                    assert(self@ =~= guess_step(old(self)@, letter));
                }
                GuessOutcome::CorrectAndWon
            } else {
                proof {
                    assert(self@ =~= guess_step(old(self)@, letter));
                }
                GuessOutcome::Correct
            }
        } else {
            proof {
                self.guesses@.lemma_push_to_set_commute(letter);
                lemma_wrong_letter_cannot_win(old(self)@, letter);
            }
            self.guesses.push(letter);
            self.lives = self.lives - 1;
            if self.lives < 1 {
                self.is_completed = true;
                proof {
                    assert(self@ =~= guess_step(old(self)@, letter));
                }
                GuessOutcome::IncorrectAndLost
            } else {
                proof {
                    assert(self@ =~= guess_step(old(self)@, letter));
                }
                GuessOutcome::Incorrect
            }
        }
    }

    /// The masked rendering of the secret word: each position shows its
    /// letter if that letter has been guessed, and `'_'` otherwise. A pure
    /// read; nothing is mutated.
    pub fn masked_word(&self) -> (masked: Vec<char>)
        ensures
            masked@ == masked_render(self@),
    {
        let mut masked: Vec<char> = Vec::new();
        let mut i: usize = 0;
        while i < self.secret_word.len()
            invariant
                i <= self@.secret.len(),
                masked@.len() == i,
                forall|j: int| 0 <= j < i ==> masked@[j] == masked_char(
                    self@.guessed,
                    self@.secret[j],
                ),
            decreases self@.secret.len() - i,
        {
            if contains_char(&self.guesses, self.secret_word[i]) {
                masked.push(self.secret_word[i]);
            } else {
                masked.push('_');
            }
            i += 1;
        }
        proof {
            assert(masked@ =~= masked_render(self@));
        }
        masked
    }

    /// The lives still available.
    pub fn lives_remaining(&self) -> (lives: i32)
        ensures
            lives as int == self@.lives,
    {
        self.lives
    }

    /// Whether the game has ended, in a win or a loss.
    pub fn is_completed(&self) -> (completed: bool)
        ensures
            completed == self@.completed,
    {
        self.is_completed
    }

    /// The letters guessed so far.
    pub fn guessed_letters(&self) -> (guessed: &Vec<char>)
        ensures
            guessed@.to_set() == self@.guessed,
    {
        &self.guesses
    }

    /// The secret word, for the end-of-game report.
    pub fn secret_word(&self) -> (word: &Vec<char>)
        ensures
            word@ == self@.secret,
    {
        &self.secret_word
    }

    /// Reports how `letter` would be judged without changing any state:
    /// `None` for a repeated guess, otherwise `Some` of whether the letter
    /// occurs in the secret word.
    pub fn check_guess(&self, guess: &char) -> (r: Option<bool>)
        ensures
            r == (if self@.guessed.contains(*guess) {
                None::<bool>
            } else {
                Some(self@.secret.contains(*guess))
            }),
    {
        if contains_char(&self.guesses, *guess) {
            None
        } else {
            if contains_char(&self.secret_word, *guess) {
                Some(true)
            } else {
                Some(false)
            }
        }
    }
}

/// How one position of the secret word is shown: the letter itself once
/// guessed, a placeholder otherwise.
pub open spec fn masked_char(guessed: Set<char>, c: char) -> char {
    if guessed.contains(c) {
        c
    } else {
        '_'
    }
}

/// The masked rendering of a game: each position of the secret word shows its
/// letter if that letter has been guessed, and `'_'` otherwise.
pub open spec fn masked_render(m: GameModel) -> Seq<char> {
    Seq::new(m.secret.len(), |i: int| masked_char(m.guessed, m.secret[i]))
}

/// Applies `guess` to the game when a character was read, and reports the
/// outcome; when no character was read, leaves the game untouched and reports
/// nothing.
pub fn handle_user_input(game: &mut Game, guess: Option<char>) -> (outcome: Option<GuessOutcome>)
    requires
        old(game).wf(),
        !old(game)@.completed,
    ensures
        final(game).wf(),
        match guess {
            Some(c) => outcome == Some(guess_outcome(old(game)@, c)) && final(game)@ == guess_step(
                old(game)@,
                c,
            ),
            None => outcome == None::<GuessOutcome> && *final(game) == *old(game),
        },
{
    match guess {
        Some(letter) => Some(game.evaluate_and_apply_guess(letter)),
        None => None,
    }
}

/// Chooses the secret word for a round. The word is a fixed constant; any
/// non-empty replacement would leave the state machine's contract unchanged.
pub fn generate_secret_word() -> (word: Vec<char>)
    ensures
        word@ == seq!['h', 'e', 'l', 'l', 'o'],
{
    let mut word: Vec<char> = Vec::new();
    word.push('h');
    word.push('e');
    word.push('l');
    word.push('l');
    word.push('o');
    proof {
        assert(word@ =~= seq!['h', 'e', 'l', 'l', 'o']);
    }
    word
}

/// Guessing a letter that does not occur in the secret word cannot make the
/// guessed letters cover the secret word if they did not already.
proof fn lemma_wrong_letter_cannot_win(m: GameModel, c: char)
    requires
        !m.won(),
        !m.secret.contains(c),
    ensures
        !(m.secret.to_set() <= m.guessed.insert(c)),
{
    let missing = choose|x: char| m.secret.to_set().contains(x) && !m.guessed.contains(x);
    assert(m.secret.to_set().contains(missing) && !m.guessed.contains(missing));
    assert(m.secret.contains(missing));
    assert(missing != c);
    assert(!m.guessed.insert(c).contains(missing));
}

/// Whether every letter of `secret` occurs among `guesses`.
fn all_letters_guessed(secret: &Vec<char>, guesses: &Vec<char>) -> (r: bool)
    ensures
        r == (secret@.to_set() <= guesses@.to_set()),
{
    let mut i: usize = 0;
    while i < secret.len()
        invariant
            i <= secret@.len(),
            forall|j: int| 0 <= j < i ==> guesses@.contains(#[trigger] secret@[j]),
        decreases secret@.len() - i,
    {
        if !contains_char(guesses, secret[i]) {
            proof {
                assert(secret@.to_set().contains(secret@[i as int]));
                assert(!guesses@.to_set().contains(secret@[i as int]));
            }
            return false;
        }
        i += 1;
    }
    proof {
        assert forall|x: char| secret@.to_set().contains(x) implies guesses@.to_set().contains(
            x,
        ) by {
            assert(secret@.contains(x));
            let j = choose|j: int| 0 <= j < secret@.len() && secret@[j] == x;
            assert(guesses@.contains(secret@[j]));
        }
    }
    true
}

/// Whether `c` occurs in `v`.
fn contains_char(v: &Vec<char>, c: char) -> (r: bool)
    ensures
        r == v@.contains(c),
{
    let mut i: usize = 0;
    while i < v.len()
        invariant
            i <= v@.len(),
            forall|j: int| 0 <= j < i ==> v@[j] != c,
        decreases v@.len() - i,
    {
        if v[i] == c {
            return true;
        }
        i += 1;
    }
    false
}

} // verus!
