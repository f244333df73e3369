use crate::relation::{RoundTrip, SameDeserialization};
use vstd::prelude::*;

verus! {

impl<S0, T0, T> RoundTrip<T> for (S0,)
    where
        S0: RoundTrip<T0>,
        T: SameDeserialization<SameAs = (T0,)>,
{
    open spec fn transforms_to(&self, t: T) -> bool {
        exists|x: (T0,)|
            {
            &&& #[trigger] T::lifts(x, t)
            &&& self.0.transforms_to(x.0)
        }
    }

    fn round_trip(&self) -> (r: T) {
        let x: (T0,) = (self.0.round_trip(),);
        T::from(x)
    }
}

impl<T0> SameDeserialization for (T0,) {
    type SameAs = (T0,);

    open spec fn lifts(data: (T0,), r: (T0,)) -> bool {
        r == data
    }

    fn from(data: (T0,)) -> (r: (T0,)) {
        data
    }
}

impl<S0, S1, T0, T1, T> RoundTrip<T> for (S0, S1)
    where
        S0: RoundTrip<T0>,
        S1: RoundTrip<T1>,
        T: SameDeserialization<SameAs = (T0, T1)>,
{
    open spec fn transforms_to(&self, t: T) -> bool {
        exists|x: (T0, T1)|
            {
            &&& #[trigger] T::lifts(x, t)
            &&& self.0.transforms_to(x.0)
            &&& self.1.transforms_to(x.1)
        }
    }

    fn round_trip(&self) -> (r: T) {
        let x: (T0, T1) = (self.0.round_trip(), self.1.round_trip());
        T::from(x)
    }
}

impl<T0, T1> SameDeserialization for (T0, T1) {
    type SameAs = (T0, T1);

    open spec fn lifts(data: (T0, T1), r: (T0, T1)) -> bool {
        r == data
    }

    fn from(data: (T0, T1)) -> (r: (T0, T1)) {
        data
    }
}

impl<S0, S1, S2, T0, T1, T2, T> RoundTrip<T> for (S0, S1, S2)
    where
        S0: RoundTrip<T0>,
        S1: RoundTrip<T1>,
        S2: RoundTrip<T2>,
        T: SameDeserialization<SameAs = (T0, T1, T2)>,
{
    open spec fn transforms_to(&self, t: T) -> bool {
        exists|x: (T0, T1, T2)|
            {
            &&& #[trigger] T::lifts(x, t)
            &&& self.0.transforms_to(x.0)
            &&& self.1.transforms_to(x.1)
            &&& self.2.transforms_to(x.2)
        }
    }

    fn round_trip(&self) -> (r: T) {
        let x: (T0, T1, T2) = (self.0.round_trip(), self.1.round_trip(), self.2.round_trip());
        T::from(x)
    }
}

impl<T0, T1, T2> SameDeserialization for (T0, T1, T2) {
    type SameAs = (T0, T1, T2);

    open spec fn lifts(data: (T0, T1, T2), r: (T0, T1, T2)) -> bool {
        r == data
    }

    fn from(data: (T0, T1, T2)) -> (r: (T0, T1, T2)) {
        data
    }
}

impl<S0, S1, S2, S3, T0, T1, T2, T3, T> RoundTrip<T> for (S0, S1, S2, S3)
    where
        S0: RoundTrip<T0>,
        S1: RoundTrip<T1>,
        S2: RoundTrip<T2>,
        S3: RoundTrip<T3>,
        T: SameDeserialization<SameAs = (T0, T1, T2, T3)>,
{
    open spec fn transforms_to(&self, t: T) -> bool {
        exists|x: (T0, T1, T2, T3)|
            {
            &&& #[trigger] T::lifts(x, t)
            &&& self.0.transforms_to(x.0)
            &&& self.1.transforms_to(x.1)
            &&& self.2.transforms_to(x.2)
            &&& self.3.transforms_to(x.3)
        }
    }

    fn round_trip(&self) -> (r: T) {
        let x: (T0, T1, T2, T3) = (self.0.round_trip(), self.1.round_trip(), self.2.round_trip(), self.3.round_trip());
        T::from(x)
    }
}

impl<T0, T1, T2, T3> SameDeserialization for (T0, T1, T2, T3) {
    type SameAs = (T0, T1, T2, T3);

    open spec fn lifts(data: (T0, T1, T2, T3), r: (T0, T1, T2, T3)) -> bool {
        r == data
    }

    fn from(data: (T0, T1, T2, T3)) -> (r: (T0, T1, T2, T3)) {
        data
    }
}

impl<S0, S1, S2, S3, S4, T0, T1, T2, T3, T4, T> RoundTrip<T> for (S0, S1, S2, S3, S4)
    where
        S0: RoundTrip<T0>,
        S1: RoundTrip<T1>,
        S2: RoundTrip<T2>,
        S3: RoundTrip<T3>,
        S4: RoundTrip<T4>,
        T: SameDeserialization<SameAs = (T0, T1, T2, T3, T4)>,
{
    open spec fn transforms_to(&self, t: T) -> bool {
        exists|x: (T0, T1, T2, T3, T4)|
            {
            &&& #[trigger] T::lifts(x, t)
            &&& self.0.transforms_to(x.0)
            &&& self.1.transforms_to(x.1)
            &&& self.2.transforms_to(x.2)
            &&& self.3.transforms_to(x.3)
            &&& self.4.transforms_to(x.4)
        }
    }

    fn round_trip(&self) -> (r: T) {
        let x: (T0, T1, T2, T3, T4) = (self.0.round_trip(), self.1.round_trip(), self.2.round_trip(), self.3.round_trip(), self.4.round_trip());
        T::from(x)
    }
}

impl<T0, T1, T2, T3, T4> SameDeserialization for (T0, T1, T2, T3, T4) {
    type SameAs = (T0, T1, T2, T3, T4);

    open spec fn lifts(data: (T0, T1, T2, T3, T4), r: (T0, T1, T2, T3, T4)) -> bool {
        r == data
    }

    fn from(data: (T0, T1, T2, T3, T4)) -> (r: (T0, T1, T2, T3, T4)) {
        data
    }
}

impl<S0, S1, S2, S3, S4, S5, T0, T1, T2, T3, T4, T5, T> RoundTrip<T> for (S0, S1, S2, S3, S4, S5)
    where
        S0: RoundTrip<T0>,
        S1: RoundTrip<T1>,
        S2: RoundTrip<T2>,
        S3: RoundTrip<T3>,
        S4: RoundTrip<T4>,
        S5: RoundTrip<T5>,
        T: SameDeserialization<SameAs = (T0, T1, T2, T3, T4, T5)>,
{
    open spec fn transforms_to(&self, t: T) -> bool {
        exists|x: (T0, T1, T2, T3, T4, T5)|
            {
            &&& #[trigger] T::lifts(x, t)
            &&& self.0.transforms_to(x.0)
            &&& self.1.transforms_to(x.1)
            &&& self.2.transforms_to(x.2)
            &&& self.3.transforms_to(x.3)
            &&& self.4.transforms_to(x.4)
            &&& self.5.transforms_to(x.5)
        }
    }

    fn round_trip(&self) -> (r: T) {
        let x: (T0, T1, T2, T3, T4, T5) = (self.0.round_trip(), self.1.round_trip(), self.2.round_trip(), self.3.round_trip(), self.4.round_trip(), self.5.round_trip());
        T::from(x)
    }
}

impl<T0, T1, T2, T3, T4, T5> SameDeserialization for (T0, T1, T2, T3, T4, T5) {
    type SameAs = (T0, T1, T2, T3, T4, T5);

    open spec fn lifts(data: (T0, T1, T2, T3, T4, T5), r: (T0, T1, T2, T3, T4, T5)) -> bool {
        r == data
    }

    fn from(data: (T0, T1, T2, T3, T4, T5)) -> (r: (T0, T1, T2, T3, T4, T5)) {
        data
    }
}

impl<S0, S1, S2, S3, S4, S5, S6, T0, T1, T2, T3, T4, T5, T6, T> RoundTrip<T> for (S0, S1, S2, S3, S4, S5, S6)
    where
        S0: RoundTrip<T0>,
        S1: RoundTrip<T1>,
        S2: RoundTrip<T2>,
        S3: RoundTrip<T3>,
        S4: RoundTrip<T4>,
        S5: RoundTrip<T5>,
        S6: RoundTrip<T6>,
        T: SameDeserialization<SameAs = (T0, T1, T2, T3, T4, T5, T6)>,
{
    open spec fn transforms_to(&self, t: T) -> bool {
        exists|x: (T0, T1, T2, T3, T4, T5, T6)|
            {
            &&& #[trigger] T::lifts(x, t)
            &&& self.0.transforms_to(x.0)
            &&& self.1.transforms_to(x.1)
            &&& self.2.transforms_to(x.2)
            &&& self.3.transforms_to(x.3)
            &&& self.4.transforms_to(x.4)
            &&& self.5.transforms_to(x.5)
            &&& self.6.transforms_to(x.6)
        }
    }

    fn round_trip(&self) -> (r: T) {
        let x: (T0, T1, T2, T3, T4, T5, T6) = (self.0.round_trip(), self.1.round_trip(), self.2.round_trip(), self.3.round_trip(), self.4.round_trip(), self.5.round_trip(), self.6.round_trip());
        T::from(x)
    }
}

impl<T0, T1, T2, T3, T4, T5, T6> SameDeserialization for (T0, T1, T2, T3, T4, T5, T6) {
    type SameAs = (T0, T1, T2, T3, T4, T5, T6);

    open spec fn lifts(data: (T0, T1, T2, T3, T4, T5, T6), r: (T0, T1, T2, T3, T4, T5, T6)) -> bool {
        r == data
    }

    fn from(data: (T0, T1, T2, T3, T4, T5, T6)) -> (r: (T0, T1, T2, T3, T4, T5, T6)) {
        data
    }
}

impl<S0, S1, S2, S3, S4, S5, S6, S7, T0, T1, T2, T3, T4, T5, T6, T7, T> RoundTrip<T> for (S0, S1, S2, S3, S4, S5, S6, S7)
    where
        S0: RoundTrip<T0>,
        S1: RoundTrip<T1>,
        S2: RoundTrip<T2>,
        S3: RoundTrip<T3>,
        S4: RoundTrip<T4>,
        S5: RoundTrip<T5>,
        S6: RoundTrip<T6>,
        S7: RoundTrip<T7>,
        T: SameDeserialization<SameAs = (T0, T1, T2, T3, T4, T5, T6, T7)>,
{
    open spec fn transforms_to(&self, t: T) -> bool {
        exists|x: (T0, T1, T2, T3, T4, T5, T6, T7)|
            {
            &&& #[trigger] T::lifts(x, t)
            &&& self.0.transforms_to(x.0)
            &&& self.1.transforms_to(x.1)
            &&& self.2.transforms_to(x.2)
            &&& self.3.transforms_to(x.3)
            &&& self.4.transforms_to(x.4)
            &&& self.5.transforms_to(x.5)
            &&& self.6.transforms_to(x.6)
            &&& self.7.transforms_to(x.7)
        }
    }

    fn round_trip(&self) -> (r: T) {
        let x: (T0, T1, T2, T3, T4, T5, T6, T7) = (self.0.round_trip(), self.1.round_trip(), self.2.round_trip(), self.3.round_trip(), self.4.round_trip(), self.5.round_trip(), self.6.round_trip(), self.7.round_trip());
        T::from(x)
    }
}

impl<T0, T1, T2, T3, T4, T5, T6, T7> SameDeserialization for (T0, T1, T2, T3, T4, T5, T6, T7) {
    type SameAs = (T0, T1, T2, T3, T4, T5, T6, T7);

    open spec fn lifts(data: (T0, T1, T2, T3, T4, T5, T6, T7), r: (T0, T1, T2, T3, T4, T5, T6, T7)) -> bool {
        r == data
    }

    fn from(data: (T0, T1, T2, T3, T4, T5, T6, T7)) -> (r: (T0, T1, T2, T3, T4, T5, T6, T7)) {
        data
    }
}

impl<S0, S1, S2, S3, S4, S5, S6, S7, S8, T0, T1, T2, T3, T4, T5, T6, T7, T8, T> RoundTrip<T> for (S0, S1, S2, S3, S4, S5, S6, S7, S8)
    where
        S0: RoundTrip<T0>,
        S1: RoundTrip<T1>,
        S2: RoundTrip<T2>,
        S3: RoundTrip<T3>,
        S4: RoundTrip<T4>,
        S5: RoundTrip<T5>,
        S6: RoundTrip<T6>,
        S7: RoundTrip<T7>,
        S8: RoundTrip<T8>,
        T: SameDeserialization<SameAs = (T0, T1, T2, T3, T4, T5, T6, T7, T8)>,
{
    open spec fn transforms_to(&self, t: T) -> bool {
        exists|x: (T0, T1, T2, T3, T4, T5, T6, T7, T8)|
            {
            &&& #[trigger] T::lifts(x, t)
            &&& self.0.transforms_to(x.0)
            &&& self.1.transforms_to(x.1)
            &&& self.2.transforms_to(x.2)
            &&& self.3.transforms_to(x.3)
            &&& self.4.transforms_to(x.4)
            &&& self.5.transforms_to(x.5)
            &&& self.6.transforms_to(x.6)
            &&& self.7.transforms_to(x.7)
            &&& self.8.transforms_to(x.8)
        }
    }

    fn round_trip(&self) -> (r: T) {
        let x: (T0, T1, T2, T3, T4, T5, T6, T7, T8) = (self.0.round_trip(), self.1.round_trip(), self.2.round_trip(), self.3.round_trip(), self.4.round_trip(), self.5.round_trip(), self.6.round_trip(), self.7.round_trip(), self.8.round_trip());
        T::from(x)
    }
}

impl<T0, T1, T2, T3, T4, T5, T6, T7, T8> SameDeserialization for (T0, T1, T2, T3, T4, T5, T6, T7, T8) {
    type SameAs = (T0, T1, T2, T3, T4, T5, T6, T7, T8);

    open spec fn lifts(data: (T0, T1, T2, T3, T4, T5, T6, T7, T8), r: (T0, T1, T2, T3, T4, T5, T6, T7, T8)) -> bool {
        r == data
    }

    fn from(data: (T0, T1, T2, T3, T4, T5, T6, T7, T8)) -> (r: (T0, T1, T2, T3, T4, T5, T6, T7, T8)) {
        data
    }
}

impl<S0, S1, S2, S3, S4, S5, S6, S7, S8, S9, T0, T1, T2, T3, T4, T5, T6, T7, T8, T9, T> RoundTrip<T> for (S0, S1, S2, S3, S4, S5, S6, S7, S8, S9)
    where
        S0: RoundTrip<T0>,
        S1: RoundTrip<T1>,
        S2: RoundTrip<T2>,
        S3: RoundTrip<T3>,
        S4: RoundTrip<T4>,
        S5: RoundTrip<T5>,
        S6: RoundTrip<T6>,
        S7: RoundTrip<T7>,
        S8: RoundTrip<T8>,
        S9: RoundTrip<T9>,
        T: SameDeserialization<SameAs = (T0, T1, T2, T3, T4, T5, T6, T7, T8, T9)>,
{
    open spec fn transforms_to(&self, t: T) -> bool {
        exists|x: (T0, T1, T2, T3, T4, T5, T6, T7, T8, T9)|
            {
            &&& #[trigger] T::lifts(x, t)
            &&& self.0.transforms_to(x.0)
            &&& self.1.transforms_to(x.1)
            &&& self.2.transforms_to(x.2)
            &&& self.3.transforms_to(x.3)
            &&& self.4.transforms_to(x.4)
            &&& self.5.transforms_to(x.5)
            &&& self.6.transforms_to(x.6)
            &&& self.7.transforms_to(x.7)
            &&& self.8.transforms_to(x.8)
            &&& self.9.transforms_to(x.9)
        }
    }

    fn round_trip(&self) -> (r: T) {
        let x: (T0, T1, T2, T3, T4, T5, T6, T7, T8, T9) = (self.0.round_trip(), self.1.round_trip(), self.2.round_trip(), self.3.round_trip(), self.4.round_trip(), self.5.round_trip(), self.6.round_trip(), self.7.round_trip(), self.8.round_trip(), self.9.round_trip());
        T::from(x)
    }
}

impl<T0, T1, T2, T3, T4, T5, T6, T7, T8, T9> SameDeserialization for (T0, T1, T2, T3, T4, T5, T6, T7, T8, T9) {
    type SameAs = (T0, T1, T2, T3, T4, T5, T6, T7, T8, T9);

    open spec fn lifts(data: (T0, T1, T2, T3, T4, T5, T6, T7, T8, T9), r: (T0, T1, T2, T3, T4, T5, T6, T7, T8, T9)) -> bool {
        r == data
    }

    fn from(data: (T0, T1, T2, T3, T4, T5, T6, T7, T8, T9)) -> (r: (T0, T1, T2, T3, T4, T5, T6, T7, T8, T9)) {
        data
    }
}

impl<S0, S1, S2, S3, S4, S5, S6, S7, S8, S9, SA, T0, T1, T2, T3, T4, T5, T6, T7, T8, T9, TA, T> RoundTrip<T> for (S0, S1, S2, S3, S4, S5, S6, S7, S8, S9, SA)
    where
        S0: RoundTrip<T0>,
        S1: RoundTrip<T1>,
        S2: RoundTrip<T2>,
        S3: RoundTrip<T3>,
        S4: RoundTrip<T4>,
        S5: RoundTrip<T5>,
        S6: RoundTrip<T6>,
        S7: RoundTrip<T7>,
        S8: RoundTrip<T8>,
        S9: RoundTrip<T9>,
        SA: RoundTrip<TA>,
        T: SameDeserialization<SameAs = (T0, T1, T2, T3, T4, T5, T6, T7, T8, T9, TA)>,
{
    open spec fn transforms_to(&self, t: T) -> bool {
        exists|x: (T0, T1, T2, T3, T4, T5, T6, T7, T8, T9, TA)|
            {
            &&& #[trigger] T::lifts(x, t)
            &&& self.0.transforms_to(x.0)
            &&& self.1.transforms_to(x.1)
            &&& self.2.transforms_to(x.2)
            &&& self.3.transforms_to(x.3)
            &&& self.4.transforms_to(x.4)
            &&& self.5.transforms_to(x.5)
            &&& self.6.transforms_to(x.6)
            &&& self.7.transforms_to(x.7)
            &&& self.8.transforms_to(x.8)
            &&& self.9.transforms_to(x.9)
            &&& self.10.transforms_to(x.10)
        }
    }

    fn round_trip(&self) -> (r: T) {
        let x: (T0, T1, T2, T3, T4, T5, T6, T7, T8, T9, TA) = (self.0.round_trip(), self.1.round_trip(), self.2.round_trip(), self.3.round_trip(), self.4.round_trip(), self.5.round_trip(), self.6.round_trip(), self.7.round_trip(), self.8.round_trip(), self.9.round_trip(), self.10.round_trip());
        T::from(x)
    }
}

impl<T0, T1, T2, T3, T4, T5, T6, T7, T8, T9, TA> SameDeserialization for (T0, T1, T2, T3, T4, T5, T6, T7, T8, T9, TA) {
    type SameAs = (T0, T1, T2, T3, T4, T5, T6, T7, T8, T9, TA);

    open spec fn lifts(data: (T0, T1, T2, T3, T4, T5, T6, T7, T8, T9, TA), r: (T0, T1, T2, T3, T4, T5, T6, T7, T8, T9, TA)) -> bool {
        r == data
    }

    fn from(data: (T0, T1, T2, T3, T4, T5, T6, T7, T8, T9, TA)) -> (r: (T0, T1, T2, T3, T4, T5, T6, T7, T8, T9, TA)) {
        data
    }
}

impl<S0, S1, S2, S3, S4, S5, S6, S7, S8, S9, SA, SB, T0, T1, T2, T3, T4, T5, T6, T7, T8, T9, TA, TB, T> RoundTrip<T> for (S0, S1, S2, S3, S4, S5, S6, S7, S8, S9, SA, SB)
    where
        S0: RoundTrip<T0>,
        S1: RoundTrip<T1>,
        S2: RoundTrip<T2>,
        S3: RoundTrip<T3>,
        S4: RoundTrip<T4>,
        S5: RoundTrip<T5>,
        S6: RoundTrip<T6>,
        S7: RoundTrip<T7>,
        S8: RoundTrip<T8>,
        S9: RoundTrip<T9>,
        SA: RoundTrip<TA>,
        SB: RoundTrip<TB>,
        T: SameDeserialization<SameAs = (T0, T1, T2, T3, T4, T5, T6, T7, T8, T9, TA, TB)>,
{
    open spec fn transforms_to(&self, t: T) -> bool {
        exists|x: (T0, T1, T2, T3, T4, T5, T6, T7, T8, T9, TA, TB)|
            {
            &&& #[trigger] T::lifts(x, t)
            &&& self.0.transforms_to(x.0)
            &&& self.1.transforms_to(x.1)
            &&& self.2.transforms_to(x.2)
            &&& self.3.transforms_to(x.3)
            &&& self.4.transforms_to(x.4)
            &&& self.5.transforms_to(x.5)
            &&& self.6.transforms_to(x.6)
            &&& self.7.transforms_to(x.7)
            &&& self.8.transforms_to(x.8)
            &&& self.9.transforms_to(x.9)
            &&& self.10.transforms_to(x.10)
            &&& self.11.transforms_to(x.11)
        }
    }

    fn round_trip(&self) -> (r: T) {
        let x: (T0, T1, T2, T3, T4, T5, T6, T7, T8, T9, TA, TB) = (self.0.round_trip(), self.1.round_trip(), self.2.round_trip(), self.3.round_trip(), self.4.round_trip(), self.5.round_trip(), self.6.round_trip(), self.7.round_trip(), self.8.round_trip(), self.9.round_trip(), self.10.round_trip(), self.11.round_trip());
        T::from(x)
    }
}

impl<T0, T1, T2, T3, T4, T5, T6, T7, T8, T9, TA, TB> SameDeserialization for (T0, T1, T2, T3, T4, T5, T6, T7, T8, T9, TA, TB) {
    type SameAs = (T0, T1, T2, T3, T4, T5, T6, T7, T8, T9, TA, TB);

    open spec fn lifts(data: (T0, T1, T2, T3, T4, T5, T6, T7, T8, T9, TA, TB), r: (T0, T1, T2, T3, T4, T5, T6, T7, T8, T9, TA, TB)) -> bool {
        r == data
    }

    fn from(data: (T0, T1, T2, T3, T4, T5, T6, T7, T8, T9, TA, TB)) -> (r: (T0, T1, T2, T3, T4, T5, T6, T7, T8, T9, TA, TB)) {
        data
    }
}

impl<S0, S1, S2, S3, S4, S5, S6, S7, S8, S9, SA, SB, SC, T0, T1, T2, T3, T4, T5, T6, T7, T8, T9, TA, TB, TC, T> RoundTrip<T> for (S0, S1, S2, S3, S4, S5, S6, S7, S8, S9, SA, SB, SC)
    where
        S0: RoundTrip<T0>,
        S1: RoundTrip<T1>,
        S2: RoundTrip<T2>,
        S3: RoundTrip<T3>,
        S4: RoundTrip<T4>,
        S5: RoundTrip<T5>,
        S6: RoundTrip<T6>,
        S7: RoundTrip<T7>,
        S8: RoundTrip<T8>,
        S9: RoundTrip<T9>,
        SA: RoundTrip<TA>,
        SB: RoundTrip<TB>,
        SC: RoundTrip<TC>,
        T: SameDeserialization<SameAs = (T0, T1, T2, T3, T4, T5, T6, T7, T8, T9, TA, TB, TC)>,
{
    open spec fn transforms_to(&self, t: T) -> bool {
        exists|x: (T0, T1, T2, T3, T4, T5, T6, T7, T8, T9, TA, TB, TC)|
            {
            &&& #[trigger] T::lifts(x, t)
            &&& self.0.transforms_to(x.0)
            &&& self.1.transforms_to(x.1)
            &&& self.2.transforms_to(x.2)
            &&& self.3.transforms_to(x.3)
            &&& self.4.transforms_to(x.4)
            &&& self.5.transforms_to(x.5)
            &&& self.6.transforms_to(x.6)
            &&& self.7.transforms_to(x.7)
            &&& self.8.transforms_to(x.8)
            &&& self.9.transforms_to(x.9)
            &&& self.10.transforms_to(x.10)
            &&& self.11.transforms_to(x.11)
            &&& self.12.transforms_to(x.12)
        }
    }

    fn round_trip(&self) -> (r: T) {
        let x: (T0, T1, T2, T3, T4, T5, T6, T7, T8, T9, TA, TB, TC) = (self.0.round_trip(), self.1.round_trip(), self.2.round_trip(), self.3.round_trip(), self.4.round_trip(), self.5.round_trip(), self.6.round_trip(), self.7.round_trip(), self.8.round_trip(), self.9.round_trip(), self.10.round_trip(), self.11.round_trip(), self.12.round_trip());
        T::from(x)
    }
}

impl<T0, T1, T2, T3, T4, T5, T6, T7, T8, T9, TA, TB, TC> SameDeserialization for (T0, T1, T2, T3, T4, T5, T6, T7, T8, T9, TA, TB, TC) {
    type SameAs = (T0, T1, T2, T3, T4, T5, T6, T7, T8, T9, TA, TB, TC);

    open spec fn lifts(data: (T0, T1, T2, T3, T4, T5, T6, T7, T8, T9, TA, TB, TC), r: (T0, T1, T2, T3, T4, T5, T6, T7, T8, T9, TA, TB, TC)) -> bool {
        r == data
    }

    fn from(data: (T0, T1, T2, T3, T4, T5, T6, T7, T8, T9, TA, TB, TC)) -> (r: (T0, T1, T2, T3, T4, T5, T6, T7, T8, T9, TA, TB, TC)) {
        data
    }
}

impl<S0, S1, S2, S3, S4, S5, S6, S7, S8, S9, SA, SB, SC, SD, T0, T1, T2, T3, T4, T5, T6, T7, T8, T9, TA, TB, TC, TD, T> RoundTrip<T> for (S0, S1, S2, S3, S4, S5, S6, S7, S8, S9, SA, SB, SC, SD)
    where
        S0: RoundTrip<T0>,
        S1: RoundTrip<T1>,
        S2: RoundTrip<T2>,
        S3: RoundTrip<T3>,
        S4: RoundTrip<T4>,
        S5: RoundTrip<T5>,
        S6: RoundTrip<T6>,
        S7: RoundTrip<T7>,
        S8: RoundTrip<T8>,
        S9: RoundTrip<T9>,
        SA: RoundTrip<TA>,
        SB: RoundTrip<TB>,
        SC: RoundTrip<TC>,
        SD: RoundTrip<TD>,
        T: SameDeserialization<SameAs = (T0, T1, T2, T3, T4, T5, T6, T7, T8, T9, TA, TB, TC, TD)>,
{
    open spec fn transforms_to(&self, t: T) -> bool {
        exists|x: (T0, T1, T2, T3, T4, T5, T6, T7, T8, T9, TA, TB, TC, TD)|
            {
            &&& #[trigger] T::lifts(x, t)
            &&& self.0.transforms_to(x.0)
            &&& self.1.transforms_to(x.1)
            &&& self.2.transforms_to(x.2)
            &&& self.3.transforms_to(x.3)
            &&& self.4.transforms_to(x.4)
            &&& self.5.transforms_to(x.5)
            &&& self.6.transforms_to(x.6)
            &&& self.7.transforms_to(x.7)
            &&& self.8.transforms_to(x.8)
            &&& self.9.transforms_to(x.9)
            &&& self.10.transforms_to(x.10)
            &&& self.11.transforms_to(x.11)
            &&& self.12.transforms_to(x.12)
            &&& self.13.transforms_to(x.13)
        }
    }

    fn round_trip(&self) -> (r: T) {
        let x: (T0, T1, T2, T3, T4, T5, T6, T7, T8, T9, TA, TB, TC, TD) = (self.0.round_trip(), self.1.round_trip(), self.2.round_trip(), self.3.round_trip(), self.4.round_trip(), self.5.round_trip(), self.6.round_trip(), self.7.round_trip(), self.8.round_trip(), self.9.round_trip(), self.10.round_trip(), self.11.round_trip(), self.12.round_trip(), self.13.round_trip());
        T::from(x)
    }
}

impl<T0, T1, T2, T3, T4, T5, T6, T7, T8, T9, TA, TB, TC, TD> SameDeserialization for (T0, T1, T2, T3, T4, T5, T6, T7, T8, T9, TA, TB, TC, TD) {
    type SameAs = (T0, T1, T2, T3, T4, T5, T6, T7, T8, T9, TA, TB, TC, TD);

    open spec fn lifts(data: (T0, T1, T2, T3, T4, T5, T6, T7, T8, T9, TA, TB, TC, TD), r: (T0, T1, T2, T3, T4, T5, T6, T7, T8, T9, TA, TB, TC, TD)) -> bool {
        r == data
    }

    fn from(data: (T0, T1, T2, T3, T4, T5, T6, T7, T8, T9, TA, TB, TC, TD)) -> (r: (T0, T1, T2, T3, T4, T5, T6, T7, T8, T9, TA, TB, TC, TD)) {
        data
    }
}

impl<S0, S1, S2, S3, S4, S5, S6, S7, S8, S9, SA, SB, SC, SD, SE, T0, T1, T2, T3, T4, T5, T6, T7, T8, T9, TA, TB, TC, TD, TE, T> RoundTrip<T> for (S0, S1, S2, S3, S4, S5, S6, S7, S8, S9, SA, SB, SC, SD, SE)
    where
        S0: RoundTrip<T0>,
        S1: RoundTrip<T1>,
        S2: RoundTrip<T2>,
        S3: RoundTrip<T3>,
        S4: RoundTrip<T4>,
        S5: RoundTrip<T5>,
        S6: RoundTrip<T6>,
        S7: RoundTrip<T7>,
        S8: RoundTrip<T8>,
        S9: RoundTrip<T9>,
        SA: RoundTrip<TA>,
        SB: RoundTrip<TB>,
        SC: RoundTrip<TC>,
        SD: RoundTrip<TD>,
        SE: RoundTrip<TE>,
        T: SameDeserialization<SameAs = (T0, T1, T2, T3, T4, T5, T6, T7, T8, T9, TA, TB, TC, TD, TE)>,
{
    open spec fn transforms_to(&self, t: T) -> bool {
        exists|x: (T0, T1, T2, T3, T4, T5, T6, T7, T8, T9, TA, TB, TC, TD, TE)|
            {
            &&& #[trigger] T::lifts(x, t)
            &&& self.0.transforms_to(x.0)
            &&& self.1.transforms_to(x.1)
            &&& self.2.transforms_to(x.2)
            &&& self.3.transforms_to(x.3)
            &&& self.4.transforms_to(x.4)
            &&& self.5.transforms_to(x.5)
            &&& self.6.transforms_to(x.6)
            &&& self.7.transforms_to(x.7)
            &&& self.8.transforms_to(x.8)
            &&& self.9.transforms_to(x.9)
            &&& self.10.transforms_to(x.10)
            &&& self.11.transforms_to(x.11)
            &&& self.12.transforms_to(x.12)
            &&& self.13.transforms_to(x.13)
            &&& self.14.transforms_to(x.14)
        }
    }

    fn round_trip(&self) -> (r: T) {
        let x: (T0, T1, T2, T3, T4, T5, T6, T7, T8, T9, TA, TB, TC, TD, TE) = (self.0.round_trip(), self.1.round_trip(), self.2.round_trip(), self.3.round_trip(), self.4.round_trip(), self.5.round_trip(), self.6.round_trip(), self.7.round_trip(), self.8.round_trip(), self.9.round_trip(), self.10.round_trip(), self.11.round_trip(), self.12.round_trip(), self.13.round_trip(), self.14.round_trip());
        T::from(x)
    }
}

impl<T0, T1, T2, T3, T4, T5, T6, T7, T8, T9, TA, TB, TC, TD, TE> SameDeserialization for (T0, T1, T2, T3, T4, T5, T6, T7, T8, T9, TA, TB, TC, TD, TE) {
    type SameAs = (T0, T1, T2, T3, T4, T5, T6, T7, T8, T9, TA, TB, TC, TD, TE);

    open spec fn lifts(data: (T0, T1, T2, T3, T4, T5, T6, T7, T8, T9, TA, TB, TC, TD, TE), r: (T0, T1, T2, T3, T4, T5, T6, T7, T8, T9, TA, TB, TC, TD, TE)) -> bool {
        r == data
    }

    fn from(data: (T0, T1, T2, T3, T4, T5, T6, T7, T8, T9, TA, TB, TC, TD, TE)) -> (r: (T0, T1, T2, T3, T4, T5, T6, T7, T8, T9, TA, TB, TC, TD, TE)) {
        data
    }
}

impl<S0, S1, S2, S3, S4, S5, S6, S7, S8, S9, SA, SB, SC, SD, SE, SF, T0, T1, T2, T3, T4, T5, T6, T7, T8, T9, TA, TB, TC, TD, TE, TF, T> RoundTrip<T> for (S0, S1, S2, S3, S4, S5, S6, S7, S8, S9, SA, SB, SC, SD, SE, SF)
    where
        S0: RoundTrip<T0>,
        S1: RoundTrip<T1>,
        S2: RoundTrip<T2>,
        S3: RoundTrip<T3>,
        S4: RoundTrip<T4>,
        S5: RoundTrip<T5>,
        S6: RoundTrip<T6>,
        S7: RoundTrip<T7>,
        S8: RoundTrip<T8>,
        S9: RoundTrip<T9>,
        SA: RoundTrip<TA>,
        SB: RoundTrip<TB>,
        SC: RoundTrip<TC>,
        SD: RoundTrip<TD>,
        SE: RoundTrip<TE>,
        SF: RoundTrip<TF>,
        T: SameDeserialization<SameAs = (T0, T1, T2, T3, T4, T5, T6, T7, T8, T9, TA, TB, TC, TD, TE, TF)>,
{
    open spec fn transforms_to(&self, t: T) -> bool {
        exists|x: (T0, T1, T2, T3, T4, T5, T6, T7, T8, T9, TA, TB, TC, TD, TE, TF)|
            {
            &&& #[trigger] T::lifts(x, t)
            &&& self.0.transforms_to(x.0)
            &&& self.1.transforms_to(x.1)
            &&& self.2.transforms_to(x.2)
            &&& self.3.transforms_to(x.3)
            &&& self.4.transforms_to(x.4)
            &&& self.5.transforms_to(x.5)
            &&& self.6.transforms_to(x.6)
            &&& self.7.transforms_to(x.7)
            &&& self.8.transforms_to(x.8)
            &&& self.9.transforms_to(x.9)
            &&& self.10.transforms_to(x.10)
            &&& self.11.transforms_to(x.11)
            &&& self.12.transforms_to(x.12)
            &&& self.13.transforms_to(x.13)
            &&& self.14.transforms_to(x.14)
            &&& self.15.transforms_to(x.15)
        }
    }

    fn round_trip(&self) -> (r: T) {
        let x: (T0, T1, T2, T3, T4, T5, T6, T7, T8, T9, TA, TB, TC, TD, TE, TF) = (self.0.round_trip(), self.1.round_trip(), self.2.round_trip(), self.3.round_trip(), self.4.round_trip(), self.5.round_trip(), self.6.round_trip(), self.7.round_trip(), self.8.round_trip(), self.9.round_trip(), self.10.round_trip(), self.11.round_trip(), self.12.round_trip(), self.13.round_trip(), self.14.round_trip(), self.15.round_trip());
        T::from(x)
    }
}

impl<T0, T1, T2, T3, T4, T5, T6, T7, T8, T9, TA, TB, TC, TD, TE, TF> SameDeserialization for (T0, T1, T2, T3, T4, T5, T6, T7, T8, T9, TA, TB, TC, TD, TE, TF) {
    type SameAs = (T0, T1, T2, T3, T4, T5, T6, T7, T8, T9, TA, TB, TC, TD, TE, TF);

    open spec fn lifts(data: (T0, T1, T2, T3, T4, T5, T6, T7, T8, T9, TA, TB, TC, TD, TE, TF), r: (T0, T1, T2, T3, T4, T5, T6, T7, T8, T9, TA, TB, TC, TD, TE, TF)) -> bool {
        r == data
    }

    fn from(data: (T0, T1, T2, T3, T4, T5, T6, T7, T8, T9, TA, TB, TC, TD, TE, TF)) -> (r: (T0, T1, T2, T3, T4, T5, T6, T7, T8, T9, TA, TB, TC, TD, TE, TF)) {
        data
    }
}

} // verus!
