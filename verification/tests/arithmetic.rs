use payment_engine::account::{Account, Wallet};
use payment_engine::amount::{Amount, MAX_MANTISSA};
use payment_engine::errors::AccountOperationError::InsufficientFunds;

/// A small generator of numbers that gives the same sequence on every run.
struct Sequence(u64);

impl Sequence {
    fn next(&mut self) -> u64 {
        self.0 ^= self.0 << 13;
        self.0 ^= self.0 >> 7;
        self.0 ^= self.0 << 17;
        self.0
    }

    /// A mantissa of up to 96 bits, of any length, and a scale up to 28.
    fn parts(&mut self) -> (i128, u32) {
        let bits = (self.next() % 97) as u32;
        let wide = ((self.next() as u128) << 64) | self.next() as u128;
        let magnitude = if bits == 0 { 0 } else { (wide >> (128 - bits)) as i128 };
        let mantissa = if self.next() % 2 == 0 { magnitude } else { -magnitude };
        let scale = match self.next() % 4 {
            0 => 0,
            1 => (self.next() % 5) as u32,
            _ => (self.next() % 29) as u32,
        };
        (mantissa, scale)
    }
}

fn amount(parts: (i128, u32)) -> Amount {
    Amount::new(parts.0, parts.1).unwrap()
}

/// The sum or difference at the larger scale, where it fits in 96 bits.
fn aligned(a: (i128, u32), b: (i128, u32), subtract: bool) -> Option<(i128, u32)> {
    if a.0 == 0 {
        return Some(if subtract { (-b.0, b.1) } else { b });
    }
    if b.0 == 0 {
        return Some(a);
    }
    let scale = a.1.max(b.1);
    let left = a.0.checked_mul(10i128.pow(scale - a.1))?;
    let right = b.0.checked_mul(10i128.pow(scale - b.1))?;
    let mantissa = if subtract { left.checked_sub(right)? } else { left.checked_add(right)? };
    if -MAX_MANTISSA <= mantissa && mantissa <= MAX_MANTISSA {
        Some((mantissa, scale))
    } else {
        None
    }
}

#[test]
fn differences_that_fit_are_exact_at_the_larger_scale() {
    let mut sequence = Sequence(0x9E37_79B9_7F4A_7C15);
    let mut exact = 0;
    for _ in 0..20000 {
        let a = sequence.parts();
        let b = sequence.parts();
        let available = Wallet::new(amount(a), amount(b)).available_funds();
        if let Some(expected) = aligned(a, b, true) {
            let available = available.unwrap();
            assert_eq!((available.mantissa(), available.scale()), expected, "{:?} - {:?}", a, b);
            exact += 1;
        }
    }
    assert!(exact > 5000);
}

#[test]
fn sums_that_fit_are_exact_at_the_larger_scale() {
    let mut sequence = Sequence(0xD1B5_4A32_D192_ED03);
    let mut exact = 0;
    for _ in 0..20000 {
        let a = sequence.parts();
        let b = sequence.parts();
        let b = (b.0.abs().max(1), b.1);
        let mut account = Account::new_with_wallet(1, Wallet::new(amount(a), Amount::zero()));
        let deposited = account.deposit(amount(b));
        if let Some(expected) = aligned(a, b, false) {
            assert_eq!(deposited, Ok(()));
            let total = account.wallet().amount();
            assert_eq!((total.mantissa(), total.scale()), expected, "{:?} + {:?}", a, b);
            exact += 1;
        }
    }
    assert!(exact > 5000);
}

#[test]
fn amounts_compare_as_the_numbers_they_stand_for() {
    let mut sequence = Sequence(0x2545_F491_4F6C_DD1D);
    let mut compared = 0;
    for _ in 0..20000 {
        let a = sequence.parts();
        let b = sequence.parts();
        let b = (b.0.abs().max(1), b.1);
        let scale = a.1.max(b.1);
        let left = a.0.checked_mul(10i128.pow(scale - a.1));
        let right = b.0.checked_mul(10i128.pow(scale - b.1));
        if let (Some(left), Some(right)) = (left, right) {
            assert_eq!(amount(a) == amount(b), left == right, "{:?} == {:?}", a, b);
            let mut account = Account::new_with_wallet(1, Wallet::new(amount(a), Amount::zero()));
            let too_much = account.withdraw(amount(b)) == Err(InsufficientFunds);
            assert_eq!(too_much, right > left, "{:?} > {:?}", b, a);
            compared += 1;
        }
    }
    assert!(compared > 5000);
}

#[test]
fn results_beyond_96_bits_are_rounded_or_overflow() {
    let big = (MAX_MANTISSA, 0);
    let tiny = (1, 28);
    assert_eq!(aligned(big, tiny, true), None);
    let available = Wallet::new(amount(big), amount(tiny)).available_funds().unwrap();
    assert_eq!((available.mantissa(), available.scale()), big);
    let negative = (-MAX_MANTISSA, 0);
    assert_eq!(Wallet::new(amount(big), amount(negative)).available_funds(), None);
    let mut account = Account::new_with_wallet(1, Wallet::new(amount(big), Amount::zero()));
    assert_eq!(account.deposit(amount(tiny)), Ok(()));
    let total = account.wallet().amount();
    assert_eq!((total.mantissa(), total.scale()), big);
}

/// The amount as it is written, by plain integer arithmetic.
fn written(parts: (i128, u32)) -> String {
    let (mantissa, scale) = parts;
    let sign = if mantissa < 0 { "-" } else { "" };
    let magnitude = mantissa.unsigned_abs();
    if scale == 0 {
        return format!("{}{}", sign, magnitude);
    }
    let unit = 10u128.pow(scale);
    format!(
        "{}{}.{:0width$}",
        sign,
        magnitude / unit,
        magnitude % unit,
        width = scale as usize
    )
}

#[test]
fn amounts_are_written_with_all_their_digits() {
    let mut sequence = Sequence(0x0123_4567_89AB_CDEF);
    for round in 0..20000 {
        let parts = sequence.parts();
        let id = (round % 65536) as u16;
        let account = Account::new_with_wallet(id, Wallet::new(amount(parts), Amount::zero()));
        let total = written(parts);
        let available = written(aligned(parts, (0, 0), true).unwrap());
        let expected = format!("{},{},0,{},false\n", id, available, total);
        assert_eq!(account.to_record(), Some(expected), "{:?}", parts);
    }
}

#[test]
fn amounts_are_written_as_expected_at_the_edges() {
    let cases: Vec<((i128, u32), &str)> = vec![
        ((0, 0), "0"),
        ((0, 1), "0.0"),
        ((0, 28), "0.0000000000000000000000000000"),
        ((5, 1), "0.5"),
        ((-5, 1), "-0.5"),
        ((150, 2), "1.50"),
        ((1005, 3), "1.005"),
        ((-1005, 3), "-1.005"),
        ((1, 28), "0.0000000000000000000000000001"),
        ((-1, 28), "-0.0000000000000000000000000001"),
        ((10, 0), "10"),
        ((-10, 0), "-10"),
        ((MAX_MANTISSA, 0), "79228162514264337593543950335"),
        ((-MAX_MANTISSA, 0), "-79228162514264337593543950335"),
        ((MAX_MANTISSA, 28), "7.9228162514264337593543950335"),
        ((-MAX_MANTISSA, 28), "-7.9228162514264337593543950335"),
        ((MAX_MANTISSA, 14), "792281625142643.37593543950335"),
        ((100, 2), "1.00"),
    ];
    for (parts, text) in cases {
        assert_eq!(written(parts), text);
        let account = Account::new_with_wallet(3, Wallet::new(amount(parts), Amount::zero()));
        let available = written(aligned(parts, (0, 0), true).unwrap());
        let expected = format!("3,{},0,{},false\n", available, text);
        assert_eq!(account.to_record(), Some(expected), "{:?}", parts);
    }
}
