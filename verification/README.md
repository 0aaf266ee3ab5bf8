# Bardic Chord

Bardic Chord captures the audio of one desktop application and plays it in a
Discord voice channel. This project holds its logic as a library that Verus
verifies, and the desktop program around it.

## Layout

- `src/` is the library. Every function states in its contract what it returns or
  changes, and Verus proves it. The laws that relate several functions stand as
  public proof functions, mostly at the end of a module.
- `tests/` runs the library on concrete values.
- `app/` is the program: the window, the requests to Discord, the voice connection,
  the sound systems of Linux and Windows, files and logging, and the command that
  builds releases (`xtask release`).

## How the two parts meet

The library never talks to the outside. Work that needs it is cut into steps: a
value such as `AudioPreparation`, `RelayLaunch`, `DiscordValidation`, `RouteRun`,
`CaptureMonitor`, `ProbeRun` or `LoopbackRun` names the next step, the program takes
it and hands the outcome back. What a button of the window does is a function on
`UiState`, in `handlers`.

Samples are held as the bit patterns of their single-precision values. The program
converts between those and floating-point numbers, and writes the numbers that are
shown with decimals.

## What is trusted

A few functions of other crates are called from the library, each behind one small
function whose contract is believed rather than proved: the Base64 decoder, the
byte order of samples, the words of an HTTP status, and SHA-256. Their doc comments
say what is claimed. Of the standard library, `String::push` is specified in the
same way.

## State on disk

Settings and logs live in `.bardic-chord/` in the working directory. The bot token
is stored there in plain text.
