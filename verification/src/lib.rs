//! Decision core of a Welch t-test bias detector.
//!
//! Two independent estimates of the same image are compared element by
//! element with Welch's unequal-variance t-test. The numeric kernel works on
//! IEEE 754 values; everything that the kernel *decides* is integer logic and
//! lives here, with a machine-checked contract:
//!
//! * [`batch`]: which batches are accepted, and with which error the others
//!   are turned away;
//! * [`single`]: how a single-precision bit pattern is classified and rounded;
//! * [`element`]: when one element has no meaningful comparison;
//! * [`student`]: the branch and the divisor schedule of the recurrence that
//!   evaluates the Student's t cumulative distribution function.
pub mod batch;
pub mod element;
pub mod error;
pub mod single;
pub mod student;
