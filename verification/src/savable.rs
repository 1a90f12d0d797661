//! A value in memory and the file that persists it.
//!
//! A store never writes its file in place. `save` names the three actions of
//! a write: the encoded value goes to a temporary sibling, the sibling is
//! forced to stable storage, and only then is it moved over the target in one
//! step. The caller performs each action and reports how it went; the store
//! decides what comes next.

use vstd::prelude::*;
use crate::path::{temp_path, temp_sibling};

verus! {

/// Why a store could not be loaded or saved.
#[derive(Debug, Clone, Copy, PartialEq, Eq, Structural)]
pub enum StoreError {
    /// There is no file at the path.
    NotFound,
    /// The file is there, but its bytes do not decode to a value.
    Corrupt,
    /// Encoding, writing, forcing to storage or replacing failed. The file at
    /// the path is as it was.
    WriteFailure,
}

/// What a store is, for contracts: the path it is bound to and the value it owns.
pub ghost struct SavableView<T> {
    pub path: Seq<char>,
    pub value: T,
}

/// A value held in memory together with the path of the file that persists it.
pub struct Savable<T> {
    save_path: String,
    inner: T,
}

impl<T> View for Savable<T> {
    type V = SavableView<T>;

    closed spec fn view(&self) -> SavableView<T> {
        SavableView { path: self.save_path@, value: self.inner }
    }
}

/// How far a save has come.
#[derive(Debug, Clone, Copy, PartialEq, Eq, Structural)]
pub enum SaveStage {
    /// The temporary file is still to be written.
    WriteTemp,
    /// The temporary file is written and still to be forced to storage.
    SyncTemp,
    /// The temporary file is durable and still to be moved over the target.
    Replace,
    /// The target holds the new bytes.
    Saved,
    /// An action failed, or the value could not be encoded.
    Failed,
}

/// A save in progress, for contracts.
pub ghost struct SaveView {
    pub target: Seq<char>,
    pub temp: Seq<char>,
    pub bytes: Seq<u8>,
    pub stage: SaveStage,
}

/// One thing to do on the file system, for contracts.
pub ghost enum Step {
    WriteTemp { path: Seq<char>, bytes: Seq<u8> },
    SyncTemp { path: Seq<char> },
    Replace { from: Seq<char>, to: Seq<char> },
    Finish { result: Result<(), StoreError> },
}

/// What the caller of a save has to do next.
#[derive(Debug, PartialEq, Eq)]
pub enum SaveAction<'a> {
    /// Create the file at `path`, or empty it, and write all of `bytes` to it.
    WriteTemp { path: &'a str, bytes: &'a [u8] },
    /// Force what was written to `path` to stable storage.
    SyncTemp { path: &'a str },
    /// Move the file at `from` over `to` in one indivisible step.
    Replace { from: &'a str, to: &'a str },
    /// Nothing is left to do; the save ended with `result`.
    Finish { result: Result<(), StoreError> },
}

impl<'a> View for SaveAction<'a> {
    type V = Step;

    open spec fn view(&self) -> Step {
        match *self {
            SaveAction::WriteTemp { path, bytes } => Step::WriteTemp { path: path@, bytes: bytes@ },
            SaveAction::SyncTemp { path } => Step::SyncTemp { path: path@ },
            SaveAction::Replace { from, to } => Step::Replace { from: from@, to: to@ },
            SaveAction::Finish { result } => Step::Finish { result },
        }
    }
}

/// A save in progress: where the bytes go, and how far they have come.
pub struct Save {
    target: String,
    temp: String,
    bytes: Vec<u8>,
    stage: SaveStage,
}

impl View for Save {
    type V = SaveView;

    closed spec fn view(&self) -> SaveView {
        SaveView { target: self.target@, temp: self.temp@, bytes: self.bytes@, stage: self.stage }
    }
}

/// The save of `encoded` to the file at `target`, before anything is done.
/// Without bytes to write there is nothing to do but to report the failure.
pub open spec fn begun(target: Seq<char>, encoded: Option<Seq<u8>>) -> SaveView {
    match encoded {
        Some(bytes) => SaveView {
            target,
            temp: temp_sibling(target),
            bytes,
            stage: SaveStage::WriteTemp,
        },
        None => SaveView {
            target,
            temp: temp_sibling(target),
            bytes: Seq::empty(),
            stage: SaveStage::Failed,
        },
    }
}

/// What is to be done at each stage of a save.
pub open spec fn next_step(save: SaveView) -> Step {
    match save.stage {
        SaveStage::WriteTemp => Step::WriteTemp { path: save.temp, bytes: save.bytes },
        SaveStage::SyncTemp => Step::SyncTemp { path: save.temp },
        SaveStage::Replace => Step::Replace { from: save.temp, to: save.target },
        SaveStage::Saved => Step::Finish { result: Ok(()) },
        SaveStage::Failed => Step::Finish { result: Err(StoreError::WriteFailure) },
    }
}

/// The stage that follows once the action of `stage` has been performed.
/// A failure ends the save; an ended save stays as it is.
pub open spec fn next_stage(stage: SaveStage, succeeded: bool) -> SaveStage {
    match stage {
        SaveStage::WriteTemp => if succeeded { SaveStage::SyncTemp } else { SaveStage::Failed },
        SaveStage::SyncTemp => if succeeded { SaveStage::Replace } else { SaveStage::Failed },
        SaveStage::Replace => if succeeded { SaveStage::Saved } else { SaveStage::Failed },
        SaveStage::Saved => SaveStage::Saved,
        SaveStage::Failed => SaveStage::Failed,
    }
}

/// The save after its pending action has been performed.
pub open spec fn advanced(save: SaveView, succeeded: bool) -> SaveView {
    SaveView { stage: next_stage(save.stage, succeeded), ..save }
}

impl<T> Savable<T> {
    /// Binds `inner` to `save_path`. Nothing is read or written.
    pub fn new(save_path: String, inner: T) -> (store: Self)
        ensures
            store@.path == save_path@,
            store@.value == inner,
    {
        Self { save_path, inner }
    }

    /// The path of the file that persists the value.
    pub fn path(&self) -> (path: &str)
        ensures
            path@ == self@.path,
    {
        self.save_path.as_str()
    }

    /// The value as it is in memory.
    pub fn inner(&self) -> (value: &T)
        ensures
            *value == self@.value,
    {
        &self.inner
    }

    /// Exclusive access to the value in memory. The path stays as it is.
    pub fn inner_mut(&mut self) -> (value: &mut T)
        ensures
            *value == old(self)@.value,
            final(self)@.value == *final(value),
            final(self)@.path == old(self)@.path,
    {
        &mut self.inner
    }

    /// Makes a store from what was found at `from`: `file` holds the bytes of
    /// the file there, or nothing if there is no file. The bytes are decoded
    /// with `decode`, which gives nothing for bytes that are no value.
    pub fn load<D: FnOnce(&Vec<u8>) -> Option<T>>(from: String, file: Option<Vec<u8>>, decode: D) -> (loaded: Result<Self, StoreError>)
        requires
            file matches Some(bytes) ==> call_requires(decode, (&bytes,)),
        ensures
            file is None ==> loaded == Err::<Self, StoreError>(StoreError::NotFound),
            file matches Some(bytes) ==> match loaded {
                Ok(store) => store@.path == from@ && call_ensures(
                    decode,
                    (&bytes,),
                    Some(store@.value),
                ),
                Err(error) => error == StoreError::Corrupt && call_ensures(
                    decode,
                    (&bytes,),
                    None,
                ),
            },
    {
        match file {
            None => Err(StoreError::NotFound),
            Some(bytes) => match decode(&bytes) {
                Some(inner) => Ok(Self { save_path: from, inner }),
                None => Err(StoreError::Corrupt),
            },
        }
    }

    /// The path of the temporary file that a save of this store writes.
    pub fn temp_path(&self) -> (temp: String)
        ensures
            temp@ == temp_sibling(self@.path),
    {
        temp_path(self.save_path.as_str())
    }

    /// Begins a save of the value as `encode` writes it down. Nothing is
    /// written here: the save that comes back names the first action.
    pub fn save<E: FnOnce(&T) -> Option<Vec<u8>>>(&self, encode: E) -> (save: Save)
        requires
            call_requires(encode, (&self@.value,)),
        ensures
            exists|encoded: Option<Vec<u8>>|
                call_ensures(encode, (&self@.value,), encoded) && save@ == begun(
                    self@.path,
                    match encoded {
                        Some(bytes) => Some(bytes@),
                        None => None,
                    },
                ),
    {
        let encoded = encode(&self.inner);
        let temp = self.temp_path();
        let target = self.save_path.clone();
        match encoded {
            Some(bytes) => Save { target, temp, bytes, stage: SaveStage::WriteTemp },
            None => Save { target, temp, bytes: Vec::new(), stage: SaveStage::Failed },
        }
    }
}

impl Save {
    /// How far the save has come.
    pub fn stage(&self) -> (stage: SaveStage)
        ensures
            stage == self@.stage,
    {
        self.stage
    }

    /// What is to be done next.
    pub fn action(&self) -> (action: SaveAction<'_>)
        ensures
            action@ == next_step(self@),
    {
        match self.stage {
            SaveStage::WriteTemp => SaveAction::WriteTemp {
                path: self.temp.as_str(),
                bytes: self.bytes.as_slice(),
            },
            SaveStage::SyncTemp => SaveAction::SyncTemp { path: self.temp.as_str() },
            SaveStage::Replace => SaveAction::Replace {
                from: self.temp.as_str(),
                to: self.target.as_str(),
            },
            SaveStage::Saved => SaveAction::Finish { result: Ok(()) },
            SaveStage::Failed => SaveAction::Finish { result: Err(StoreError::WriteFailure) },
        }
    }

    /// Takes note that the pending action was performed, and whether it
    /// succeeded.
    pub fn advance(&mut self, succeeded: bool)
        ensures
            final(self)@ == advanced(old(self)@, succeeded),
    {
        self.stage = match self.stage {
            SaveStage::WriteTemp => if succeeded { SaveStage::SyncTemp } else { SaveStage::Failed },
            SaveStage::SyncTemp => if succeeded { SaveStage::Replace } else { SaveStage::Failed },
            SaveStage::Replace => if succeeded { SaveStage::Saved } else { SaveStage::Failed },
            SaveStage::Saved => SaveStage::Saved,
            SaveStage::Failed => SaveStage::Failed,
        };
    }
}

} // verus!
