use vstd::prelude::*;

verus! {

/// Denotes that the inner `T` is given in units of voxels.
#[derive(Clone, Copy, Debug, Eq, PartialEq)]
pub struct VoxelUnits<T>(pub T);

impl<T> VoxelUnits<T> {
    pub fn into_inner(self) -> (inner: T)
        ensures
            inner == self.0,
    {
        self.0
    }

    /// Applies `f` to the inner value and keeps the unit.
    pub fn map<S, F: FnOnce(T) -> S>(self, f: F) -> (mapped: VoxelUnits<S>)
        requires
            f.requires((self.0,)),
        ensures
            f.ensures((self.0,), mapped.0),
    {
        VoxelUnits(f(self.0))
    }

    /// Applies `f` to the inner values of two quantities of the same unit.
    pub fn combine<S, R, F: FnOnce(T, S) -> R>(self, other: VoxelUnits<S>, f: F) -> (combined:
        VoxelUnits<R>)
        requires
            f.requires((self.0, other.0)),
        ensures
            f.ensures((self.0, other.0), combined.0),
    {
        VoxelUnits(f(self.0, other.0))
    }
}

/// Denotes that the inner `T` is given in units of chunks.
#[derive(Clone, Copy, Debug, Eq, PartialEq)]
pub struct ChunkUnits<T>(pub T);

impl<T> ChunkUnits<T> {
    pub fn into_inner(self) -> (inner: T)
        ensures
            inner == self.0,
    {
        self.0
    }

    /// Applies `f` to the inner value and keeps the unit.
    pub fn map<S, F: FnOnce(T) -> S>(self, f: F) -> (mapped: ChunkUnits<S>)
        requires
            f.requires((self.0,)),
        ensures
            f.ensures((self.0,), mapped.0),
    {
        ChunkUnits(f(self.0))
    }

    /// Applies `f` to the inner values of two quantities of the same unit.
    pub fn combine<S, R, F: FnOnce(T, S) -> R>(self, other: ChunkUnits<S>, f: F) -> (combined:
        ChunkUnits<R>)
        requires
            f.requires((self.0, other.0)),
        ensures
            f.ensures((self.0, other.0), combined.0),
    {
        ChunkUnits(f(self.0, other.0))
    }
}

} // verus!
