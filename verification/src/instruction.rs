use vstd::prelude::*;

use crate::error::AppSW;

verus! {

/// The commands reachable through the command header: instruction code,
/// and for multi-chunk commands the chunk index carried in the first
/// parameter byte.
#[derive(Clone, Copy, PartialEq, Eq, Structural, Debug)]
pub enum Instruction {
    GetVersion,
    GetAppName,
    DkgGetIdentity,
    DkgRound1 { chunk: u8 },
    DkgRound2 { chunk: u8 },
    DkgRound3 { chunk: u8 },
    DkgCommitment { chunk: u8 },
    DkgSign { chunk: u8 },
    DkgGetKeys { key_type: u8 },
}

/// Whether the header bytes form an accepted command: the three parameter-
/// free commands, the five chunked commands with a chunk index of 0
/// through 2, or the key request with any key kind byte.
pub open spec fn spec_header_accepted(ins: u8, p1: u8, p2: u8) -> bool {
    ||| (ins == 3 || ins == 4 || ins == 16) && p1 == 0 && p2 == 0
    ||| 17 <= ins <= 21 && p1 <= 2 && p2 == 0
    ||| ins == 22 && p2 == 0
}

impl Instruction {
    /// Reads a command out of the header bytes: instruction code and the
    /// two parameter bytes. Decoding succeeds exactly on the accepted
    /// headers; the version and app-name codes with bad parameters report
    /// a parameter error, every other refused header an unsupported
    /// instruction.
    pub fn try_from(ins: u8, p1: u8, p2: u8) -> (r: Result<Instruction, AppSW>)
        ensures
            r is Ok <==> spec_header_accepted(ins, p1, p2),
            match r {
                Ok(i) => {
                    &&& (i == Instruction::GetVersion <==> ins == 3)
                    &&& (i == Instruction::GetAppName <==> ins == 4)
                    &&& (i == Instruction::DkgGetIdentity <==> ins == 16)
                    &&& (i == (Instruction::DkgRound1 { chunk: p1 }) <==> ins == 17)
                    &&& (i == (Instruction::DkgRound2 { chunk: p1 }) <==> ins == 18)
                    &&& (i == (Instruction::DkgRound3 { chunk: p1 }) <==> ins == 19)
                    &&& (i == (Instruction::DkgCommitment { chunk: p1 }) <==> ins == 20)
                    &&& (i == (Instruction::DkgSign { chunk: p1 }) <==> ins == 21)
                    &&& (i == (Instruction::DkgGetKeys { key_type: p1 }) <==> ins == 22)
                },
                Err(e) => {
                    &&& (e == AppSW::WrongP1P2 <==> 3 <= ins <= 6)
                    &&& (e == AppSW::InsNotSupported <==> !(3 <= ins <= 6))
                },
            },
    {
        match (ins, p1, p2) {
            (3, 0, 0) => Ok(Instruction::GetVersion),
            (4, 0, 0) => Ok(Instruction::GetAppName),
            (16, 0, 0) => Ok(Instruction::DkgGetIdentity),
            (17, 0..=2, 0) => Ok(Instruction::DkgRound1 { chunk: p1 }),
            (18, 0..=2, 0) => Ok(Instruction::DkgRound2 { chunk: p1 }),
            (19, 0..=2, 0) => Ok(Instruction::DkgRound3 { chunk: p1 }),
            (20, 0..=2, 0) => Ok(Instruction::DkgCommitment { chunk: p1 }),
            (21, 0..=2, 0) => Ok(Instruction::DkgSign { chunk: p1 }),
            (22, _, 0) => Ok(Instruction::DkgGetKeys { key_type: p1 }),
            (3..=6, _, _) => Err(AppSW::WrongP1P2),
            (_, _, _) => Err(AppSW::InsNotSupported),
        }
    }
}

} // verus!
